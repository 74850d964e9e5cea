//! Busca de regras e ingestão.

use airpg_engine::ingest_srd::{
    chunk_paragraphs, create_embeddings, load_srd, load_srd_test_data, SrdCondition,
    SrdRuleSection, SrdSpell,
};
use airpg_engine::rag::{
    carregar, codificar_embedding, decodificar_embedding, formatar_para_prompt, ordenar,
    podem_ordenar, LinhaRegra, Pontuacao, RegraChunk,
};

fn pontos(xs: &[f32]) -> Vec<Pontuacao> {
    xs.iter().map(|x| Pontuacao { bits: x.to_bits() }).collect()
}

fn linha(titulo: &str, embedding: Vec<u8>) -> LinhaRegra {
    LinhaRegra {
        categoria: "magia".to_string(),
        titulo: titulo.to_string(),
        texto: format!("texto de {titulo}"),
        embedding,
    }
}

#[test]
fn decodifica_embedding_ida_e_volta() {
    let original = vec![1.5_f32, -2.25, 0.0, 100.0];
    let bytes: Vec<u8> = original.iter().flat_map(|f| f.to_le_bytes()).collect();
    let decodificado: Vec<f32> =
        decodificar_embedding(&bytes).into_iter().map(f32::from_bits).collect();
    assert_eq!(original, decodificado);
}

#[test]
fn codifica_os_mesmos_bytes_que_leu() {
    let original = [1.5_f32, -2.25, 0.0, 100.0, f32::MIN_POSITIVE];
    let bytes: Vec<u8> = original.iter().flat_map(|f| f.to_le_bytes()).collect();
    let bits: Vec<u32> = original.iter().map(|f| f.to_bits()).collect();
    assert_eq!(codificar_embedding(&bits), bytes);
    assert_eq!(codificar_embedding(&decodificar_embedding(&bytes)), bytes);
}

#[test]
fn bytes_que_sobram_nao_contam() {
    assert_eq!(decodificar_embedding(&[1, 0, 0, 0, 9, 9]), vec![1]);
    assert!(decodificar_embedding(&[1, 2, 3]).is_empty());
}

#[test]
fn formatar_para_prompt_vazio_retorna_string_vazia() {
    assert_eq!(formatar_para_prompt(&[]), "");
}

#[test]
fn formatar_para_prompt_inclui_categoria_titulo_e_texto() {
    let chunks = vec![RegraChunk {
        categoria: "condicao".to_string(),
        titulo: "Charmed".to_string(),
        texto: "não pode atacar quem o encantou".to_string(),
    }];
    let formatado = formatar_para_prompt(&chunks);
    assert!(formatado.contains("condicao"));
    assert!(formatado.contains("Charmed"));
    assert!(formatado.contains("não pode atacar"));
}

#[test]
fn regras_saem_uma_por_linha() {
    let c = |t: &str| RegraChunk {
        categoria: "magia".to_string(),
        titulo: t.to_string(),
        texto: "x".to_string(),
    };
    assert_eq!(formatar_para_prompt(&[c("A"), c("B")]), "[magia] A: x\n[magia] B: x");
}

#[test]
fn ordem_das_pontuacoes_e_a_dos_numeros() {
    let xs = [0.5_f32, -1.0, 0.9, 0.5, f32::INFINITY, 0.0, -0.0, -0.5];
    let mut esperado: Vec<usize> = (0..xs.len()).collect();
    esperado.sort_by(|a, b| xs[*b].partial_cmp(&xs[*a]).unwrap());
    let ps = pontos(&xs);
    assert!(podem_ordenar(&ps));
    assert_eq!(ordenar(&ps), esperado);
}

#[test]
fn pontuacao_que_nao_e_numero_so_ordena_entre_iguais() {
    assert!(!podem_ordenar(&pontos(&[0.1, f32::NAN, 0.2])));
    let iguais = pontos(&[0.1, f32::NAN, 0.1]);
    assert!(podem_ordenar(&iguais));
    assert_eq!(ordenar(&iguais), vec![0, 1, 2]);
    assert!(podem_ordenar(&[]));
}

#[test]
fn busca_devolve_as_mais_relevantes() {
    let indice = carregar(vec![
        linha("A", vec![0; 8]),
        linha("B", vec![1, 0, 0, 0]),
        linha("C", vec![]),
    ])
    .unwrap();
    assert_eq!(indice.chunks[1].1, vec![1]);
    let titulos = |xs: &[f32], k: usize| -> Vec<String> {
        indice.buscar_relevantes(&pontos(xs), k).into_iter().map(|c| c.titulo).collect()
    };
    assert_eq!(titulos(&[0.1, 0.9, 0.5], 2), vec!["B", "C"]);
    assert_eq!(titulos(&[0.1, 0.9, 0.5], 9), vec!["B", "C", "A"]);
    assert_eq!(titulos(&[0.3, 0.3, 0.3], 2), vec!["A", "B"]);
    assert!(titulos(&[0.3, 0.3, 0.3], 0).is_empty());
}

#[test]
fn tabela_vazia_nao_tem_indice() {
    assert!(carregar(vec![]).is_none());
}

#[test]
fn paragrafos_se_juntam_ate_o_alvo() {
    let texto = "um\n\n  dois \n\n\n\ntres\n\nquatro";
    assert_eq!(chunk_paragraphs(texto, 7), vec!["um", "dois", "tres", "quatro"]);
    assert_eq!(chunk_paragraphs(texto, 8), vec!["um\n\ndois", "tres", "quatro"]);
    assert_eq!(chunk_paragraphs(texto, 12), vec!["um\n\ndois", "tres\n\nquatro"]);
    assert_eq!(chunk_paragraphs(texto, 100), vec!["um\n\ndois\n\ntres\n\nquatro"]);
    assert_eq!(chunk_paragraphs(texto, 0), vec!["um", "dois", "tres", "quatro"]);
    assert!(chunk_paragraphs(" \n\n \t ", 10).is_empty());
    assert!(chunk_paragraphs("", 10).is_empty());
}

#[test]
fn paragrafo_maior_que_o_alvo_fica_inteiro() {
    let grande = "x".repeat(50);
    let texto = format!("a\n\n{grande}\n\nb");
    assert_eq!(chunk_paragraphs(&texto, 10), vec!["a".to_string(), grande, "b".to_string()]);
}

#[test]
fn tamanho_dos_blocos_e_em_caracteres() {
    assert_eq!(chunk_paragraphs("ééé\n\nab", 7), vec!["ééé\n\nab"]);
    assert_eq!(chunk_paragraphs("ééé\n\nab", 6), vec!["ééé", "ab"]);
}

#[test]
fn linha_em_branco_entre_paragrafos_conta() {
    assert_eq!(chunk_paragraphs("aaaaa\n\nbbbbb", 10), vec!["aaaaa", "bbbbb"]);
    assert_eq!(chunk_paragraphs("aaaaa\n\nbbbbb", 11), vec!["aaaaa", "bbbbb"]);
    assert_eq!(chunk_paragraphs("aaaaa\n\nbbbbb", 12), vec!["aaaaa\n\nbbbbb"]);
}

#[test]
fn lei_dividir_de_novo_da_os_mesmos_blocos() {
    let texto = "alfa\n\n beta\n\n\n\ngama delta\n\népsilon\n\nzeta ";
    for alvo in 0..50 {
        let blocos = chunk_paragraphs(texto, alvo);
        assert_eq!(chunk_paragraphs(&blocos.join("\n\n"), alvo), blocos);
    }
}

#[test]
fn tres_quebras_seguidas_separam_nas_duas_primeiras() {
    assert_eq!(chunk_paragraphs("a\n\n\nb", 0), vec!["a", "b"]);
    assert_eq!(chunk_paragraphs("a\nb", 0), vec!["a\nb"]);
}

#[test]
fn lei_blocos_juntos_sao_os_paragrafos_juntos() {
    let texto = "alfa\n\nbeta\n\ngama delta\n\nepsilon";
    for alvo in 0..40 {
        assert_eq!(chunk_paragraphs(texto, alvo).join("\n\n"), texto);
    }
}

#[test]
fn dados_minimos_tem_dez_trechos() {
    let ts = load_srd_test_data();
    assert_eq!(ts.len(), 10);
    assert_eq!(ts[0].0, "magia");
    assert_eq!(ts[3].1, "Charmed");
    assert!(ts[9].2.starts_with("When an effect allows a target"));
}

#[test]
fn trechos_do_srd_na_ordem() {
    let condicao = SrdCondition {
        name: "Blinded".to_string(),
        desc: vec!["- A.".to_string(), "- B.".to_string()],
    };
    let magia = SrdSpell {
        name: "Acid Arrow".to_string(),
        desc: vec!["D1".to_string(), "D2".to_string()],
        higher_level: vec!["H".to_string()],
        level: 2,
        school: "Evocation".to_string(),
        classes: vec!["Wizard".to_string(), "Sorcerer".to_string()],
    };
    let truque = SrdSpell { higher_level: vec![], level: 0, ..magia.clone() };
    let secao = SrdRuleSection {
        name: "Combat".to_string(),
        desc: format!("{}\n\n{}", "a".repeat(500), "b".repeat(500)),
    };
    let ts = load_srd(&[condicao], &[magia, truque], &[secao]);
    assert_eq!(ts.len(), 5);
    assert_eq!(
        ts[0],
        ("condicao".to_string(), "Blinded".to_string(), "- A. - B.".to_string())
    );
    assert_eq!(
        ts[1].2,
        "Acid Arrow (nível 2, escola Evocation, classes: Wizard, Sorcerer). D1 D2 Em níveis superiores: H"
    );
    assert_eq!(
        ts[2].2,
        "Acid Arrow (nível 0, escola Evocation, classes: Wizard, Sorcerer). D1 D2"
    );
    assert_eq!(ts[3].0, "regra_geral");
    assert_eq!(ts[3].1, "Combat");
    assert_eq!(ts[4].1, "Combat (parte 2)");
    assert_eq!(ts[4].2, "b".repeat(500));
}

#[test]
fn cada_trecho_leva_o_seu_vetor() {
    let ts = load_srd_test_data();
    let cs = create_embeddings(&ts, vec![vec![7], vec![8, 9]]);
    assert_eq!(cs.len(), 2);
    assert_eq!(cs[0].titulo, "Magic Missile");
    assert_eq!(cs[1].embedding, vec![8, 9]);
    assert_eq!(create_embeddings(&ts[..1], vec![vec![7], vec![8]]).len(), 1);
}

#[test]
fn so_um_paragrafo_inteiro_passa_do_alvo() {
    let texto = "alfa\n\nbeta\n\ngama delta\n\nepsilon\n\né\n\num dois tres";
    for alvo in 0..60 {
        for bloco in chunk_paragraphs(texto, alvo) {
            assert!(
                bloco.chars().count() <= alvo || texto.split("\n\n").any(|p| p == bloco),
                "{alvo}: {bloco}"
            );
            assert_eq!(bloco, bloco.trim());
        }
    }
}
