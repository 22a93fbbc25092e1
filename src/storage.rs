use crate::domain::Flashcard;
use vstd::prelude::*;

verus! {

/// Why a store operation failed.
#[derive(Debug, Clone, PartialEq, Eq)]
pub enum StorageError {
    /// Reading or writing the backing file failed; the text says why.
    Io(String),
    /// The backing file holds no valid collection; the text says why.
    Serde(String),
    /// A card with this identifier is already stored.
    IdDuplicado,
    /// No card with this identifier is stored.
    NaoEncontrado,
}

/// The store of one backing file. Every operation reads the whole collection
/// from that file, applies one change to it and writes it back whole.
#[derive(Debug, Clone)]
pub struct FileStorage {
    pub caminho_arquivo: String,
}

impl FileStorage {
    /// A store over the file at the given path.
    pub fn novo(caminho_arquivo: &str) -> (r: FileStorage)
        ensures
            r.caminho_arquivo@ == caminho_arquivo@,
    {
        FileStorage { caminho_arquivo: caminho_arquivo.to_owned() }
    }
}

/// Some card of `s` has the identifier `id`.
pub open spec fn contem_id(s: Seq<Flashcard>, id: u128) -> bool {
    exists|i: int| 0 <= i < s.len() && s[i].id == id
}

/// `i` is the first position of `s` that holds a card with identifier `id`.
pub open spec fn primeira_posicao(s: Seq<Flashcard>, id: u128, i: int) -> bool {
    &&& 0 <= i < s.len()
    &&& s[i].id == id
    &&& forall|j: int| 0 <= j < i ==> s[j].id != id
}

/// The first position of `s` that holds identifier `id` (meaningful only
/// where `contem_id(s, id)`).
pub open spec fn posicao_de(s: Seq<Flashcard>, id: u128) -> int {
    choose|i: int| primeira_posicao(s, id, i)
}

/// No two cards of `s` share an identifier.
pub open spec fn ids_distintos(s: Seq<Flashcard>) -> bool {
    forall|i: int, j: int| 0 <= i < j < s.len() ==> s[i].id != s[j].id
}

/// A collection as it may be stored: every card well formed, identifiers
/// unique.
pub open spec fn colecao_valida(s: Seq<Flashcard>) -> bool {
    &&& ids_distintos(s)
    &&& forall|i: int| 0 <= i < s.len() ==> (#[trigger] s[i]).bem_formado()
}

/// The collection after adding `f`: `None` when its identifier is taken,
/// else `f` appended at the end.
pub open spec fn com_adicionado(s: Seq<Flashcard>, f: Flashcard) -> Option<Seq<Flashcard>> {
    if contem_id(s, f.id) {
        None
    } else {
        Some(s.push(f))
    }
}

/// The collection after replacing the card with `f`'s identifier by `f`, in
/// place: `None` when no card has that identifier.
pub open spec fn com_atualizado(s: Seq<Flashcard>, f: Flashcard) -> Option<Seq<Flashcard>> {
    if contem_id(s, f.id) {
        Some(s.update(posicao_de(s, f.id), f))
    } else {
        None
    }
}

/// The collection after removing the card with identifier `id`, the others
/// keeping their order: `None` when no card has that identifier.
pub open spec fn com_removido(s: Seq<Flashcard>, id: u128) -> Option<Seq<Flashcard>> {
    if contem_id(s, id) {
        Some(s.remove(posicao_de(s, id)))
    } else {
        None
    }
}

/// The card of `s` with identifier `id`, if any.
pub open spec fn card_com_id(s: Seq<Flashcard>, id: u128) -> Option<Flashcard> {
    if contem_id(s, id) {
        Some(s[posicao_de(s, id)])
    } else {
        None
    }
}

/// A position found by a left-to-right scan is the one `posicao_de` names.
pub proof fn lemma_posicao_de(s: Seq<Flashcard>, id: u128, i: int)
    requires
        primeira_posicao(s, id, i),
    ensures
        contem_id(s, id),
        posicao_de(s, id) == i,
{
    let k = posicao_de(s, id);
    assert(primeira_posicao(s, id, k));
    if k < i {
        assert(s[k].id != id);
    } else if k > i {
        assert(s[i].id != id);
    }
}

/// The first position of `colecao` that holds a card with identifier `id`.
pub fn posicao(colecao: &Vec<Flashcard>, id: u128) -> (r: Option<usize>)
    ensures
        r is None <==> !contem_id(colecao@, id),
        r is Some ==> primeira_posicao(colecao@, id, r->Some_0 as int) && posicao_de(colecao@, id)
            == r->Some_0 as int,
{
    let mut i: usize = 0;
    while i < colecao.len()
        invariant
            i <= colecao.len(),
            forall|j: int| 0 <= j < i ==> colecao@[j].id != id,
        decreases colecao.len() - i,
    {
        if colecao[i].id == id {
            proof {
                lemma_posicao_de(colecao@, id, i as int);
            }
            return Some(i);
        }
        i = i + 1;
    }
    None
}

/// Takes the card with identifier `id` out of a loaded collection, if any.
pub fn obter_em(colecao: Vec<Flashcard>, id: u128) -> (r: Option<Flashcard>)
    ensures
        r == card_com_id(colecao@, id),
{
    let mut colecao = colecao;
    match posicao(&colecao, id) {
        Some(i) => Some(colecao.remove(i)),
        None => None,
    }
}

/// Appends `flashcard` unless its identifier is already stored, in which case
/// the collection stays as it was.
///
/// The card itself is not checked: a card that is not well formed (changed
/// by hand past its setters) is appended too, and a collection holding it is
/// then refused by `colecao_carregada`. Cards from `Flashcard::novo` and its
/// setters are always well formed.
pub fn adicionar_em(colecao: &mut Vec<Flashcard>, flashcard: Flashcard) -> (r: Result<
    (),
    StorageError,
>)
    ensures
        r is Ok <==> !contem_id(old(colecao)@, flashcard.id),
        r is Err ==> r == Err::<(), StorageError>(StorageError::IdDuplicado) && final(colecao)@
            == old(colecao)@,
        r is Ok ==> Some(final(colecao)@) == com_adicionado(old(colecao)@, flashcard),
        colecao_valida(old(colecao)@) && flashcard.bem_formado() ==> colecao_valida(
            final(colecao)@,
        ),
{
    match posicao(colecao, flashcard.id) {
        Some(_) => Err(StorageError::IdDuplicado),
        None => {
            colecao.push(flashcard);
            proof {
                let s = final(colecao)@;
                assert(forall|j: int| 0 <= j < s.len() - 1 ==> s[j] == old(colecao)@[j]);
            }
            Ok(())
        },
    }
}

/// Replaces, in place, the stored card that has `flashcard`'s identifier; when
/// none has it the collection stays as it was.
///
/// As with `adicionar_em`, the card itself is not checked: only a well-formed
/// card keeps a valid collection valid.
pub fn atualizar_em(colecao: &mut Vec<Flashcard>, flashcard: Flashcard) -> (r: Result<
    (),
    StorageError,
>)
    ensures
        r is Ok <==> contem_id(old(colecao)@, flashcard.id),
        r is Err ==> r == Err::<(), StorageError>(StorageError::NaoEncontrado) && final(colecao)@
            == old(colecao)@,
        r is Ok ==> Some(final(colecao)@) == com_atualizado(old(colecao)@, flashcard),
        colecao_valida(old(colecao)@) && flashcard.bem_formado() ==> colecao_valida(
            final(colecao)@,
        ),
{
    match posicao(colecao, flashcard.id) {
        Some(i) => {
            colecao[i] = flashcard;
            proof {
                let s = final(colecao)@;
                let o = old(colecao)@;
                assert(forall|j: int| 0 <= j < s.len() ==> s[j].id == o[j].id);
            }
            Ok(())
        },
        None => Err(StorageError::NaoEncontrado),
    }
}

/// Removes the stored card with identifier `id`, the others keeping their
/// order; when none has it the collection stays as it was.
pub fn remover_em(colecao: &mut Vec<Flashcard>, id: u128) -> (r: Result<(), StorageError>)
    ensures
        r is Ok <==> contem_id(old(colecao)@, id),
        r is Err ==> r == Err::<(), StorageError>(StorageError::NaoEncontrado) && final(colecao)@
            == old(colecao)@,
        r is Ok ==> Some(final(colecao)@) == com_removido(old(colecao)@, id),
        colecao_valida(old(colecao)@) ==> colecao_valida(final(colecao)@),
{
    match posicao(colecao, id) {
        Some(i) => {
            colecao.remove(i);
            proof {
                let s = final(colecao)@;
                let o = old(colecao)@;
                assert(forall|j: int| 0 <= j < s.len() ==> #[trigger] s[j] == if j < i {
                    o[j]
                } else {
                    o[j + 1]
                });
            }
            Ok(())
        },
        None => Err(StorageError::NaoEncontrado),
    }
}

/// Whether `colecao` may be stored: all cards well formed, no identifier
/// twice.
pub fn colecao_e_valida(colecao: &Vec<Flashcard>) -> (r: bool)
    ensures
        r == colecao_valida(colecao@),
{
    let n = colecao.len();
    let mut i: usize = 0;
    while i < n
        invariant
            n == colecao.len(),
            i <= n,
            forall|a: int| 0 <= a < i ==> (#[trigger] colecao@[a]).bem_formado(),
            forall|a: int, b: int| 0 <= a < b < n && a < i ==> colecao@[a].id != colecao@[b].id,
        decreases n - i,
    {
        if !colecao[i].e_bem_formado() {
            return false;
        }
        let mut j: usize = i + 1;
        while j < n
            invariant
                n == colecao.len(),
                i < n,
                i < j <= n,
                forall|b: int| i < b < j ==> colecao@[i as int].id != colecao@[b].id,
            decreases n - j,
        {
            if colecao[i].id == colecao[j].id {
                return false;
            }
            j = j + 1;
        }
        i = i + 1;
    }
    true
}

/// A collection read from the backing file, kept when it may be stored and
/// refused as corrupt otherwise.
pub fn colecao_carregada(lida: Vec<Flashcard>) -> (r: Result<Vec<Flashcard>, StorageError>)
    ensures
        r is Ok <==> colecao_valida(lida@),
        r is Ok ==> r->Ok_0@ == lida@,
        r is Err ==> r->Err_0 is Serde,
{
    if colecao_e_valida(&lida) {
        Ok(lida)
    } else {
        Err(StorageError::Serde("a coleção tem um cartão inválido ou um id repetido".to_string()))
    }
}

/// From an empty collection: adding `a` gives `[a]`, where `a` is found by its
/// identifier; replacing it by a card `a2` with the same identifier gives
/// `[a2]`; removing that identifier gives the empty collection; removing it
/// once more finds nothing.
pub proof fn lemma_ciclo_completo(a: Flashcard, a2: Flashcard)
    requires
        a2.id == a.id,
    ensures
        com_adicionado(Seq::empty(), a) == Some(seq![a]),
        card_com_id(seq![a], a.id) == Some(a),
        com_atualizado(seq![a], a2) == Some(seq![a2]),
        com_removido(seq![a2], a.id) == Some(Seq::<Flashcard>::empty()),
        com_removido(Seq::<Flashcard>::empty(), a.id) is None,
{
    let e = Seq::<Flashcard>::empty();
    assert(e.push(a) =~= seq![a]);
    lemma_posicao_de(seq![a], a.id, 0);
    assert(seq![a].update(0, a2) =~= seq![a2]);
    lemma_posicao_de(seq![a2], a.id, 0);
    assert(seq![a2].remove(0) =~= e);
}

/// Adding `a`, `b` and `c` in that order keeps that order; replacing `b` by a
/// card `b2` with its identifier then gives `[a, b2, c]`, and removing `b`'s
/// identifier instead gives `[a, c]`.
pub proof fn lemma_ordem_preservada(a: Flashcard, b: Flashcard, c: Flashcard, b2: Flashcard)
    requires
        a.id != b.id,
        a.id != c.id,
        b.id != c.id,
        b2.id == b.id,
    ensures
        com_adicionado(Seq::empty(), a) == Some(seq![a]),
        com_adicionado(seq![a], b) == Some(seq![a, b]),
        com_adicionado(seq![a, b], c) == Some(seq![a, b, c]),
        com_atualizado(seq![a, b, c], b2) == Some(seq![a, b2, c]),
        com_removido(seq![a, b, c], b.id) == Some(seq![a, c]),
{
    let e = Seq::<Flashcard>::empty();
    assert(e.push(a) =~= seq![a]);
    assert(!contem_id(seq![a], b.id));
    assert(seq![a].push(b) =~= seq![a, b]);
    assert(!contem_id(seq![a, b], c.id));
    assert(seq![a, b].push(c) =~= seq![a, b, c]);
    lemma_posicao_de(seq![a, b, c], b.id, 1);
    assert(seq![a, b, c].update(1, b2) =~= seq![a, b2, c]);
    assert(seq![a, b, c].remove(1) =~= seq![a, c]);
}

} // verus!
