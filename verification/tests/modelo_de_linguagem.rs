//! O que se pede aos modelos e o que se faz com o que respondem.

use airpg_engine::combate::TipoAcaoCombate;
use airpg_engine::guardrail::{
    montar_system_prompt, GuardrailSaida, Passo, Veredito, SYSTEM_PROMPT_BASE, TEXTO_NEUTRO,
};
use airpg_engine::jsonutil::extrair_json;
use airpg_engine::llm::{montar_conversa, LlmClient, Resposta};
use airpg_engine::mestre::{
    avaliar_acao_combate, avaliar_inicio_combate, avaliar_verificacao, criar_cena, pedido_de_inicio,
    resolver_cena, AcaoCombateProposta, CenaGerada, InicioCombateProposto, Resolucao,
    VerificacaoProposta,
};
use airpg_engine::skills::ResultadoDados;
use airpg_engine::state::Npc;

fn guardrail() -> GuardrailSaida {
    GuardrailSaida::new(LlmClient::from_env(None, None, None))
}

fn veredito(aprovado: bool) -> Resposta<Veredito> {
    Resposta::Lida(Veredito { aprovado, motivo: None })
}

fn criatura(id: &str, nome: &str) -> Npc {
    Npc::figurante(
        id.to_string(),
        nome.to_string(),
        "hostil".to_string(),
        "mata".to_string(),
        false,
        String::new(),
    )
}

#[test]
fn configuracao_padrao_e_a_local() {
    let c = LlmClient::from_env(None, None, None);
    assert_eq!(c.base_url, "http://localhost:4000");
    assert_eq!(c.api_key, "sk-airpg-local-dev");
    assert_eq!(c.model, "airpg-local");
    assert_eq!(c.endereco(), "http://localhost:4000/chat/completions");
    let c = LlmClient::from_env(Some("http://x".into()), None, Some("m".into()));
    assert_eq!(c.endereco(), "http://x/chat/completions");
    assert_eq!(c.model, "m");
}

#[test]
fn conversa_tem_instrucoes_historico_e_entrada() {
    let h = vec![("p".to_string(), "r".to_string())];
    let ms = montar_conversa("sys", &h, "agora");
    let vistos: Vec<(&str, &str)> =
        ms.iter().map(|m| (m.role.as_str(), m.content.as_str())).collect();
    assert_eq!(
        vistos,
        vec![("system", "sys"), ("user", "p"), ("assistant", "r"), ("user", "agora")]
    );
    assert_eq!(montar_conversa("s", &[], "u").len(), 2);
}

#[test]
fn vale_a_primeira_escolha() {
    assert_eq!(LlmClient::complete(&["a".to_string(), "b".to_string()]), "a");
    assert_eq!(LlmClient::complete(&[]), "");
}

#[test]
fn recorta_o_objeto_da_resposta() {
    assert_eq!(extrair_json("claro! {\"a\": 1} é isso"), Some("{\"a\": 1}"));
    assert_eq!(extrair_json("```json\n{\"a\": {\"b\": 2}}\n```"), Some("{\"a\": {\"b\": 2}}"));
    assert_eq!(extrair_json("sem objeto"), None);
    assert_eq!(extrair_json("só abre {"), None);
    assert_eq!(extrair_json("só fecha }"), None);
    assert_eq!(extrair_json("ção {x} ã"), Some("{x}"));
    assert_eq!(extrair_json(""), None);
}

#[test]
fn recorta_so_o_primeiro_objeto() {
    assert_eq!(extrair_json("{\"a\": 1} e {\"b\": 2}"), Some("{\"a\": 1}"));
    assert_eq!(extrair_json("{\"a\": 1}\nEspero ter ajudado :-}"), Some("{\"a\": 1}"));
    assert_eq!(extrair_json("} {x}"), Some("{x}"));
    assert_eq!(extrair_json("} {"), None);
    assert_eq!(extrair_json("}{"), None);
    assert_eq!(extrair_json("{}}"), Some("{}"));
    assert_eq!(extrair_json("{{x}"), None);
}

#[test]
fn chaves_dentro_de_textos_nao_contam() {
    assert_eq!(extrair_json("ok {\"a\": \"}\"} x"), Some("{\"a\": \"}\"}"));
    assert_eq!(extrair_json("{\"a\": \"{\"}"), Some("{\"a\": \"{\"}"));
    assert_eq!(extrair_json(r#"{"a": "\"}"} x"#), Some(r#"{"a": "\"}"}"#));
    assert_eq!(extrair_json(r#"{"a": "\\"} x}"#), Some(r#"{"a": "\\"}"#));
    assert_eq!(extrair_json("{\"a\": \"}"), None);
}

#[test]
fn revisor_sabe_do_teste_rolado() {
    assert_eq!(montar_system_prompt(None), SYSTEM_PROMPT_BASE);
    let r = ResultadoDados { schema_version: 1, rolagem: 18, dificuldade: 10, sucesso: true };
    assert_eq!(
        montar_system_prompt(Some(&r)),
        format!(
            "{SYSTEM_PROMPT_BASE}\nUm teste de dados foi rolado para esta ação: rolagem 18 contra dificuldade 10 → resultado SUCESSO. \
             Reprove também se a narração contradisser esse resultado (ex: descrever sucesso quando o resultado foi fracasso, ou vice-versa)."
        )
    );
}

#[test]
fn texto_aprovado_passa() {
    let r = guardrail().revisar("-Olá", None);
    let p = r.pedido();
    assert_eq!(p.system, SYSTEM_PROMPT_BASE);
    assert_eq!(p.user, "-Olá");
    assert!(matches!(r.responder(&veredito(true)), Passo::Pronto(t) if t == "-Olá"));
}

#[test]
fn revisao_sem_resposta_deixa_passar() {
    let g = guardrail();
    assert!(matches!(g.revisar("a", None).responder(&Resposta::Falha), Passo::Pronto(t) if t == "a"));
    assert!(
        matches!(g.revisar("a", None).responder(&Resposta::Ilegivel), Passo::Pronto(t) if t == "a")
    );
}

#[test]
fn duas_reprovacoes_dao_o_texto_neutro() {
    match guardrail().revisar("a", None).responder(&veredito(false)) {
        Passo::Perguntar(r) => {
            assert_eq!(r.tentativa, 2);
            match r.responder(&veredito(false)) {
                Passo::Pronto(t) => assert_eq!(t, TEXTO_NEUTRO),
                Passo::Perguntar(_) => panic!("terceira tentativa"),
            }
        },
        Passo::Pronto(_) => panic!("desistiu na primeira"),
    }
    match guardrail().revisar("a", None).responder(&veredito(false)) {
        Passo::Perguntar(r) => {
            assert!(matches!(r.responder(&veredito(true)), Passo::Pronto(t) if t == "a"));
        },
        Passo::Pronto(_) => panic!("desistiu na primeira"),
    }
}

#[test]
fn cena_existente_nao_e_criada_de_novo() {
    let c = criar_cena(
        "floresta_negra",
        Resposta::Lida(CenaGerada { nome: "N".into(), descricao: "D".into() }),
    );
    assert_eq!(c.nome, "N");
    assert_eq!(c.descricao, "D");
    assert!(c.fatos_estabelecidos.is_empty());
    match resolver_cena(Some(c), "floresta_negra") {
        Resolucao::Existe(c) => assert_eq!(c.nome, "N"),
        Resolucao::Criar(_) => panic!("criou"),
    }
    match resolver_cena(None, "floresta_negra") {
        Resolucao::Criar(p) => assert_eq!(p.user, "Identificador do local: floresta_negra"),
        Resolucao::Existe(_) => panic!("existe"),
    }
}

#[test]
fn cena_sem_mestre_tem_o_nome_do_local() {
    for r in [Resposta::Falha, Resposta::Ilegivel] {
        let c = criar_cena("taverna_porto_velho", r);
        assert_eq!(c.location_id, "taverna_porto_velho");
        assert_eq!(c.nome, "taverna porto velho");
        assert_eq!(c.descricao, "Um lugar ainda pouco descrito.");
    }
}

fn sugestao(precisa: bool, atributo: &str, dificuldade: u32) -> Resposta<VerificacaoProposta> {
    Resposta::Lida(VerificacaoProposta {
        precisa_teste: precisa,
        atributo: atributo.to_string(),
        dificuldade,
        descricao: "escalar".to_string(),
    })
}

#[test]
fn teste_fica_nos_limites() {
    let v = avaliar_verificacao(sugestao(true, "forca", 99));
    assert!(v.precisa_teste);
    assert_eq!(v.atributo, "forca");
    assert_eq!(v.dificuldade, 25);
    assert_eq!(v.descricao, "escalar");
    let v = avaliar_verificacao(sugestao(true, "sorte", 0));
    assert_eq!(v.atributo, "geral");
    assert_eq!(v.dificuldade, 5);
    assert_eq!(avaliar_verificacao(sugestao(true, "carisma", 12)).dificuldade, 12);
}

#[test]
fn sem_teste_a_decisao_e_vazia() {
    for r in [sugestao(false, "forca", 10), Resposta::Falha, Resposta::Ilegivel] {
        let v = avaliar_verificacao(r);
        assert!(!v.precisa_teste);
        assert_eq!(v.atributo, "");
        assert_eq!(v.dificuldade, 0);
        assert_eq!(v.descricao, "");
    }
}

#[test]
fn combate_so_comeca_contra_quem_esta_presente() {
    let lobo = criatura("npc_lobo", "Lobo");
    let urso = criatura("npc_urso", "Urso");
    let presentes = [&lobo, &urso];
    let p = pedido_de_inicio("ataco", &presentes).unwrap();
    assert_eq!(
        p.user,
        "Criaturas hostis presentes: Lobo (id: npc_lobo), Urso (id: npc_urso)\nAção do jogador: ataco"
    );
    assert!(pedido_de_inicio("ataco", &[]).is_none());
    let r = |inicia: bool, id: &str| {
        Resposta::Lida(InicioCombateProposto { inicia_combate: inicia, alvo_id: id.to_string() })
    };
    assert_eq!(avaliar_inicio_combate(r(true, "npc_urso"), &presentes).as_deref(), Some("npc_urso"));
    assert!(avaliar_inicio_combate(r(true, "npc_dragao"), &presentes).is_none());
    assert!(avaliar_inicio_combate(r(false, "npc_urso"), &presentes).is_none());
    assert!(avaliar_inicio_combate(Resposta::Falha, &presentes).is_none());
    assert!(avaliar_inicio_combate(Resposta::Ilegivel, &presentes).is_none());
}

#[test]
fn acao_em_combate_e_classificada() {
    let r = |t: &str| Resposta::Lida(AcaoCombateProposta { tipo: t.to_string() });
    assert!(avaliar_acao_combate(r("atacar")) == TipoAcaoCombate::Atacar);
    assert!(avaliar_acao_combate(r("fugir")) == TipoAcaoCombate::Fugir);
    assert!(avaliar_acao_combate(r("dançar")) == TipoAcaoCombate::Outro);
    assert!(avaliar_acao_combate(Resposta::Ilegivel) == TipoAcaoCombate::Outro);
    assert!(avaliar_acao_combate(Resposta::Falha) == TipoAcaoCombate::Atacar);
}
