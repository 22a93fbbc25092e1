use flashcards::domain::{Flashcard, Instante};

fn instante(segundos: i64, nanos: u32) -> Instante {
    Instante { segundos, nanos }
}

#[test]
fn cria_flashcard_valido() {
    let fc = Flashcard::novo("Pergunta?", "Resposta!").unwrap();
    assert_eq!(fc.pergunta, "Pergunta?");
    assert_eq!(fc.resposta, "Resposta!");
}

#[test]
fn valida_campos_vazios() {
    assert!(Flashcard::novo("", "ok").is_err());
    assert!(Flashcard::novo("ok", "  ").is_err());
}

#[test]
fn atualiza_campos() {
    let mut fc = Flashcard::novo("A", "B").unwrap();
    fc.atualizar_pergunta("Nova?").unwrap();
    fc.atualizar_resposta("Resposta nova").unwrap();
    assert_eq!(fc.pergunta, "Nova?");
    assert_eq!(fc.resposta, "Resposta nova");
}

#[test]
fn novo_apara_os_campos() {
    let fc = Flashcard::novo("  Q \n", "\t A  ").unwrap();
    assert_eq!(fc.pergunta, "Q");
    assert_eq!(fc.resposta, "A");
    assert_eq!(fc.criado_em, fc.atualizado_em);
    assert!(fc.e_bem_formado());
}

#[test]
fn novo_recusa_pergunta_antes_da_resposta() {
    assert_eq!(Flashcard::novo("   ", "  "), Err("A pergunta não pode ser vazia."));
    assert_eq!(Flashcard::novo("", "ok"), Err("A pergunta não pode ser vazia."));
    assert_eq!(Flashcard::novo("ok", " \t\n"), Err("A resposta não pode ser vazia."));
    assert_eq!(Flashcard::novo("ok", ""), Err("A resposta não pode ser vazia."));
}

#[test]
fn novo_em_usa_id_e_instante_dados() {
    let fc = Flashcard::novo_em(" Q ", "A", 42, instante(1_700_000_000, 5)).unwrap();
    assert_eq!(fc.id, 42);
    assert_eq!(fc.pergunta, "Q");
    assert_eq!(fc.criado_em, instante(1_700_000_000, 5));
    assert_eq!(fc.atualizado_em, instante(1_700_000_000, 5));
}

#[test]
fn novo_da_ids_aleatorios_da_versao_quatro() {
    let a = Flashcard::novo("Q", "A").unwrap();
    let b = Flashcard::novo("Q", "A").unwrap();
    assert_ne!(a.id, b.id);
    assert_eq!((a.id >> 76) & 0xF, 4);
    assert_eq!((a.id >> 62) & 0x3, 2);
    assert!(a.criado_em.segundos > 1_600_000_000);
    assert!(a.criado_em.nanos < 1_000_000_000);
}

#[test]
fn atualizacao_vazia_nao_muda_nada() {
    let mut fc = Flashcard::novo_em("Q", "A", 7, instante(10, 0)).unwrap();
    let antes = fc.clone();
    assert_eq!(fc.atualizar_pergunta("   "), Err("A nova pergunta não pode ser vazia."));
    assert_eq!(fc, antes);
    assert_eq!(fc.atualizar_resposta(""), Err("A nova resposta não pode ser vazia."));
    assert_eq!(fc, antes);
    assert_eq!(
        fc.atualizar_pergunta_em(" \n", instante(20, 0)),
        Err("A nova pergunta não pode ser vazia.")
    );
    assert_eq!(fc, antes);
}

#[test]
fn atualizacao_avanca_o_instante() {
    let mut fc = Flashcard::novo_em("Q", "A", 7, instante(10, 500)).unwrap();
    fc.atualizar_pergunta_em("  Nova  ", instante(10, 900)).unwrap();
    assert_eq!(fc.pergunta, "Nova");
    assert_eq!(fc.atualizado_em, instante(10, 900));
    assert_eq!(fc.criado_em, instante(10, 500));
    fc.atualizar_resposta_em("Outra", instante(12, 0)).unwrap();
    assert_eq!(fc.resposta, "Outra");
    assert_eq!(fc.atualizado_em, instante(12, 0));
}

#[test]
fn atualizacao_nunca_recua_o_instante() {
    let mut fc = Flashcard::novo_em("Q", "A", 7, instante(10, 500)).unwrap();
    fc.atualizar_resposta_em("R", instante(9, 999)).unwrap();
    assert_eq!(fc.resposta, "R");
    assert_eq!(fc.atualizado_em, instante(10, 500));
    fc.atualizar_pergunta_em("P", instante(10, 499)).unwrap();
    assert_eq!(fc.atualizado_em, instante(10, 500));
    assert!(fc.e_bem_formado());
}

#[test]
fn atualizacao_pelo_relogio_nao_recua() {
    let mut fc = Flashcard::novo("Q", "A").unwrap();
    let criado = fc.criado_em;
    fc.atualizar_pergunta("Nova?").unwrap();
    assert_eq!(fc.criado_em, criado);
    assert!(fc.atualizado_em.mais_tarde(criado) == fc.atualizado_em);
}

#[test]
fn mais_tarde_compara_segundos_e_nanos() {
    assert_eq!(instante(3, 0).mais_tarde(instante(2, 999)), instante(3, 0));
    assert_eq!(instante(3, 1).mais_tarde(instante(3, 2)), instante(3, 2));
    assert_eq!(instante(-1, 5).mais_tarde(instante(0, 0)), instante(0, 0));
}

#[test]
fn bem_formado_recusa_campos_nao_aparados() {
    let mut fc = Flashcard::novo_em("Q", "A", 1, instante(5, 0)).unwrap();
    assert!(fc.e_bem_formado());
    fc.pergunta = " Q".to_string();
    assert!(!fc.e_bem_formado());
    fc.pergunta = "Q".to_string();
    fc.resposta = String::new();
    assert!(!fc.e_bem_formado());
    fc.resposta = "A".to_string();
    fc.atualizado_em = instante(4, 999);
    assert!(!fc.e_bem_formado());
}

#[test]
fn aparar_segue_o_espaco_unicode() {
    let fc = Flashcard::novo("\u{3000}\u{a0}Q\u{2003}", "\u{85}A\u{202f}").unwrap();
    assert_eq!(fc.pergunta, "Q");
    assert_eq!(fc.resposta, "A");
    assert_eq!(
        Flashcard::novo("\u{2028}\u{1680}", "A"),
        Err("A pergunta não pode ser vazia.")
    );
}
