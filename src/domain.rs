use vstd::prelude::*;

verus! {

/// A point in time: whole seconds since the Unix epoch (UTC) and the
/// nanoseconds within that second.
#[derive(Debug, Clone, Copy, PartialEq, Eq, Structural, Hash)]
pub struct Instante {
    pub segundos: i64,
    pub nanos: u32,
}

impl Instante {
    /// `self` is at or after `outro`, comparing seconds first.
    pub open spec fn nao_antes_de(self, outro: Instante) -> bool {
        self.segundos > outro.segundos || (self.segundos == outro.segundos && self.nanos
            >= outro.nanos)
    }

    /// The later of the two instants.
    pub fn mais_tarde(self, outro: Instante) -> (r: Instante)
        ensures
            r == o_mais_tarde(self, outro),
            r.nao_antes_de(self),
            r.nao_antes_de(outro),
    {
        if self.segundos > outro.segundos || (self.segundos == outro.segundos && self.nanos
            >= outro.nanos) {
            self
        } else {
            outro
        }
    }
}

/// `c` has the Unicode White_Space property.
pub open spec fn e_espaco(c: char) -> bool {
    let n = c as u32;
    (0x09 <= n <= 0x0D) || n == 0x20 || n == 0x85 || n == 0xA0 || n == 0x1680 || (0x2000 <= n
        <= 0x200A) || n == 0x2028 || n == 0x2029 || n == 0x202F || n == 0x205F || n == 0x3000
}

/// `s` without its leading whitespace.
pub open spec fn sem_espaco_inicial(s: Seq<char>) -> Seq<char>
    decreases s.len(),
{
    if s.len() > 0 && e_espaco(s[0]) {
        sem_espaco_inicial(s.drop_first())
    } else {
        s
    }
}

/// `s` without its trailing whitespace.
pub open spec fn sem_espaco_final(s: Seq<char>) -> Seq<char>
    decreases s.len(),
{
    if s.len() > 0 && e_espaco(s.last()) {
        sem_espaco_final(s.drop_last())
    } else {
        s
    }
}

/// `s` without its leading and trailing whitespace.
pub open spec fn aparado(s: Seq<char>) -> Seq<char> {
    sem_espaco_final(sem_espaco_inicial(s))
}

proof fn lemma_sem_espaco_inicial(s: Seq<char>)
    ensures
        sem_espaco_inicial(s).len() > 0 ==> !e_espaco(sem_espaco_inicial(s)[0]),
    decreases s.len(),
{
    if s.len() > 0 && e_espaco(s[0]) {
        lemma_sem_espaco_inicial(s.drop_first());
    }
}

proof fn lemma_sem_espaco_final(s: Seq<char>)
    ensures
        sem_espaco_final(s).len() <= s.len(),
        sem_espaco_final(s) =~= s.subrange(0, sem_espaco_final(s).len() as int),
        sem_espaco_final(s).len() > 0 ==> !e_espaco(sem_espaco_final(s).last()),
    decreases s.len(),
{
    if s.len() > 0 && e_espaco(s.last()) {
        lemma_sem_espaco_final(s.drop_last());
    }
}

/// A trimmed text that is not empty is a valid field value.
proof fn lemma_aparado_valido(s: Seq<char>)
    ensures
        aparado(s).len() > 0 ==> campo_valido(aparado(s)),
{
    let u = sem_espaco_inicial(s);
    lemma_sem_espaco_inicial(s);
    lemma_sem_espaco_final(u);
    if aparado(s).len() > 0 {
        assert(aparado(s)[0] == u[0]);
    }
}

/// A valid field value is its own trimmed form.
proof fn lemma_valido_aparado(s: Seq<char>)
    requires
        campo_valido(s),
    ensures
        aparado(s) == s,
{
    assert(sem_espaco_inicial(s) == s);
    assert(sem_espaco_final(s) == s);
}

/// Relies on `str::trim`: it removes leading and trailing White_Space.
#[verifier::external_body]
fn aparar<'a>(s: &'a str) -> (r: &'a str)
    ensures
        r@ == aparado(s@),
{
    s.trim()
}

/// Relies on chrono's `From<SystemTime> for DateTime<Utc>`, read as whole
/// seconds and nanoseconds: a reading before the Unix epoch becomes negative
/// seconds, and the nanoseconds always stay under one second.
#[verifier::external_body]
fn agora() -> (r: Instante)
    ensures
        r.nanos < 1_000_000_000,
{
    let t = chrono::DateTime::<chrono::Utc>::from(std::time::SystemTime::now());
    Instante { segundos: t.timestamp(), nanos: t.timestamp_subsec_nanos() }
}

/// Relies on `uuid::Uuid::new_v4`, read as a 128-bit integer: random bits,
/// with the version nibble set to 4 and the variant bits to RFC 4122.
#[verifier::external_body]
fn novo_id() -> (r: u128)
    ensures
        r & 0xF000_C000_0000_0000_0000u128 == 0x4000_8000_0000_0000_0000u128,
{
    uuid::Uuid::new_v4().as_u128()
}

/// The later of two instants, as a value.
pub open spec fn o_mais_tarde(a: Instante, b: Instante) -> Instante {
    if a.nao_antes_de(b) {
        a
    } else {
        b
    }
}

/// One study card: a question, its answer, an identifier given once, and the
/// instants of creation and of the last change.
#[derive(Debug, Clone, PartialEq, Eq)]
pub struct Flashcard {
    pub id: u128,
    pub pergunta: String,
    pub resposta: String,
    pub criado_em: Instante,
    pub atualizado_em: Instante,
}

/// A text is a valid field value: not empty, and neither starting nor ending
/// with whitespace (so never whitespace only).
pub open spec fn campo_valido(s: Seq<char>) -> bool {
    s.len() > 0 && !e_espaco(s[0]) && !e_espaco(s.last())
}

impl Flashcard {
    /// Both fields are valid and the last change is not before the creation.
    pub open spec fn bem_formado(self) -> bool {
        campo_valido(self.pergunta@) && campo_valido(self.resposta@)
            && self.atualizado_em.nao_antes_de(self.criado_em)
    }

    /// Checks `bem_formado`: for a card read from outside the library.
    pub fn e_bem_formado(&self) -> (r: bool)
        ensures
            r == self.bem_formado(),
    {
        let pergunta = aparar(self.pergunta.as_str()).to_owned();
        let resposta = aparar(self.resposta.as_str()).to_owned();
        let ordem = self.atualizado_em.mais_tarde(self.criado_em);
        proof {
            lemma_aparado_valido(self.pergunta@);
            lemma_aparado_valido(self.resposta@);
            if campo_valido(self.pergunta@) {
                lemma_valido_aparado(self.pergunta@);
            }
            if campo_valido(self.resposta@) {
                lemma_valido_aparado(self.resposta@);
            }
        }
        !self.pergunta.as_str().is_empty() && pergunta == self.pergunta
            && !self.resposta.as_str().is_empty() && resposta == self.resposta
            && ordem == self.atualizado_em
    }

    /// Builds a card from the given identifier and instant, trimming both
    /// texts; the question is checked first.
    pub fn novo_em(pergunta: &str, resposta: &str, id: u128, instante: Instante) -> (r: Result<
        Flashcard,
        &'static str,
    >)
        ensures
            r is Ok <==> (aparado(pergunta@).len() > 0 && aparado(resposta@).len() > 0),
            pergunta@.len() == 0 ==> r == Err::<Flashcard, &'static str>(
                "A pergunta não pode ser vazia.",
            ),
            aparado(pergunta@).len() > 0 && resposta@.len() == 0 ==> r == Err::<
                Flashcard,
                &'static str,
            >("A resposta não pode ser vazia."),
            aparado(pergunta@).len() == 0 ==> r == Err::<Flashcard, &'static str>(
                "A pergunta não pode ser vazia.",
            ),
            aparado(pergunta@).len() > 0 && aparado(resposta@).len() == 0 ==> r == Err::<
                Flashcard,
                &'static str,
            >("A resposta não pode ser vazia."),
            r is Ok ==> ({
                let f = r->Ok_0;
                &&& f.id == id
                &&& f.pergunta@ == aparado(pergunta@)
                &&& f.resposta@ == aparado(resposta@)
                &&& f.criado_em == instante
                &&& f.atualizado_em == instante
                &&& f.bem_formado()
            }),
    {
        let p = aparar(pergunta).to_owned();
        let a = aparar(resposta).to_owned();
        proof {
            lemma_aparado_valido(pergunta@);
            lemma_aparado_valido(resposta@);
        }
        if p.as_str().is_empty() {
            return Err("A pergunta não pode ser vazia.");
        }
        if a.as_str().is_empty() {
            return Err("A resposta não pode ser vazia.");
        }
        Ok(Flashcard { id, pergunta: p, resposta: a, criado_em: instante, atualizado_em: instante })
    }

    /// Builds a card with a fresh random identifier, created and changed now.
    pub fn novo(pergunta: &str, resposta: &str) -> (r: Result<Flashcard, &'static str>)
        ensures
            r is Ok <==> (aparado(pergunta@).len() > 0 && aparado(resposta@).len() > 0),
            pergunta@.len() == 0 ==> r == Err::<Flashcard, &'static str>(
                "A pergunta não pode ser vazia.",
            ),
            aparado(pergunta@).len() > 0 && resposta@.len() == 0 ==> r == Err::<
                Flashcard,
                &'static str,
            >("A resposta não pode ser vazia."),
            aparado(pergunta@).len() == 0 ==> r == Err::<Flashcard, &'static str>(
                "A pergunta não pode ser vazia.",
            ),
            aparado(pergunta@).len() > 0 && aparado(resposta@).len() == 0 ==> r == Err::<
                Flashcard,
                &'static str,
            >("A resposta não pode ser vazia."),
            r is Ok ==> ({
                let f = r->Ok_0;
                &&& f.pergunta@ == aparado(pergunta@)
                &&& f.resposta@ == aparado(resposta@)
                &&& f.criado_em == f.atualizado_em
                &&& f.criado_em.nanos < 1_000_000_000
                &&& f.id & 0xF000_C000_0000_0000_0000u128 == 0x4000_8000_0000_0000_0000u128
                &&& f.bem_formado()
            }),
    {
        let id = novo_id();
        let instante = agora();
        Flashcard::novo_em(pergunta, resposta, id, instante)
    }

    /// Replaces the question by the trimmed text and moves the last change to
    /// `instante`, or keeps it where a later one already stands. On an empty
    /// text nothing changes.
    pub fn atualizar_pergunta_em(&mut self, nova_pergunta: &str, instante: Instante) -> (r: Result<
        (),
        &'static str,
    >)
        ensures
            r is Ok <==> aparado(nova_pergunta@).len() > 0,
            nova_pergunta@.len() == 0 ==> r == Err::<(), &'static str>("A nova pergunta não pode ser vazia."),
            r is Err ==> r == Err::<(), &'static str>("A nova pergunta não pode ser vazia.")
                && *final(self) == *old(self),
            r is Ok ==> final(self).pergunta@ == aparado(nova_pergunta@) && final(self).resposta
                == old(self).resposta && final(self).id == old(self).id && final(self).criado_em
                == old(self).criado_em && final(self).atualizado_em == o_mais_tarde(
                old(self).atualizado_em,
                instante,
            ),
            old(self).bem_formado() ==> final(self).bem_formado(),
    {
        let nova = aparar(nova_pergunta).to_owned();
        proof {
            lemma_aparado_valido(nova_pergunta@);
        }
        if nova.as_str().is_empty() {
            return Err("A nova pergunta não pode ser vazia.");
        }
        self.pergunta = nova;
        self.atualizado_em = self.atualizado_em.mais_tarde(instante);
        Ok(())
    }

    /// Replaces the answer by the trimmed text and moves the last change to
    /// `instante`, or keeps it where a later one already stands. On an empty
    /// text nothing changes.
    pub fn atualizar_resposta_em(&mut self, nova_resposta: &str, instante: Instante) -> (r: Result<
        (),
        &'static str,
    >)
        ensures
            r is Ok <==> aparado(nova_resposta@).len() > 0,
            nova_resposta@.len() == 0 ==> r == Err::<(), &'static str>("A nova resposta não pode ser vazia."),
            r is Err ==> r == Err::<(), &'static str>("A nova resposta não pode ser vazia.")
                && *final(self) == *old(self),
            r is Ok ==> final(self).resposta@ == aparado(nova_resposta@) && final(self).pergunta
                == old(self).pergunta && final(self).id == old(self).id && final(self).criado_em
                == old(self).criado_em && final(self).atualizado_em == o_mais_tarde(
                old(self).atualizado_em,
                instante,
            ),
            old(self).bem_formado() ==> final(self).bem_formado(),
    {
        let nova = aparar(nova_resposta).to_owned();
        proof {
            lemma_aparado_valido(nova_resposta@);
        }
        if nova.as_str().is_empty() {
            return Err("A nova resposta não pode ser vazia.");
        }
        self.resposta = nova;
        self.atualizado_em = self.atualizado_em.mais_tarde(instante);
        Ok(())
    }

    /// Replaces the question by the trimmed text and marks the card changed
    /// now; the last change never moves back. On an empty text nothing
    /// changes.
    pub fn atualizar_pergunta(&mut self, nova_pergunta: &str) -> (r: Result<(), &'static str>)
        ensures
            r is Ok <==> aparado(nova_pergunta@).len() > 0,
            nova_pergunta@.len() == 0 ==> r == Err::<(), &'static str>("A nova pergunta não pode ser vazia."),
            r is Err ==> r == Err::<(), &'static str>("A nova pergunta não pode ser vazia.")
                && *final(self) == *old(self),
            r is Ok ==> final(self).pergunta@ == aparado(nova_pergunta@) && final(self).resposta
                == old(self).resposta && final(self).id == old(self).id,
            final(self).criado_em == old(self).criado_em,
            final(self).atualizado_em.nao_antes_de(old(self).atualizado_em),
            old(self).bem_formado() ==> final(self).bem_formado(),
    {
        let instante = agora();
        self.atualizar_pergunta_em(nova_pergunta, instante)
    }

    /// Replaces the answer by the trimmed text and marks the card changed
    /// now; the last change never moves back. On an empty text nothing
    /// changes.
    pub fn atualizar_resposta(&mut self, nova_resposta: &str) -> (r: Result<(), &'static str>)
        ensures
            r is Ok <==> aparado(nova_resposta@).len() > 0,
            nova_resposta@.len() == 0 ==> r == Err::<(), &'static str>("A nova resposta não pode ser vazia."),
            r is Err ==> r == Err::<(), &'static str>("A nova resposta não pode ser vazia.")
                && *final(self) == *old(self),
            r is Ok ==> final(self).resposta@ == aparado(nova_resposta@) && final(self).pergunta
                == old(self).pergunta && final(self).id == old(self).id,
            final(self).criado_em == old(self).criado_em,
            final(self).atualizado_em.nao_antes_de(old(self).atualizado_em),
            old(self).bem_formado() ==> final(self).bem_formado(),
    {
        let instante = agora();
        self.atualizar_resposta_em(nova_resposta, instante)
    }
}

} // verus!
