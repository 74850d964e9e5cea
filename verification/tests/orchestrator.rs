//! Orquestrador e turno.

use airpg_engine::events::{AcaoJogadorPayload, Event, EventType};
use airpg_engine::orchestrator::{Orchestrator, AGENT_TIMEOUT_SECS, MAX_AGENTES_POR_TURNO};
use airpg_engine::state::{Npc, Player};
use airpg_engine::state_changes::MudancaProposta;
use airpg_engine::turno::{
    abrir_turno, contexto_do_turno, jogador_do_turno, processar_turno, reagir_a_colisao,
    reunir_reacoes,
};
use airpg_engine::valor::Valor;

fn na_taverna() -> Player {
    let mut p = Player::seed("player_01");
    p.location_id = "taverna".to_string();
    p
}

fn npc_em(id: &str, local: &str) -> Npc {
    Npc::figurante(
        id.to_string(),
        format!("NPC {id}"),
        "neutro".to_string(),
        local.to_string(),
        false,
        String::new(),
    )
}

fn acao(resposta: &str) -> AcaoJogadorPayload {
    AcaoJogadorPayload { situation: "".into(), response: resposta.to_string() }
}

fn campo(e: &Event, nome: &str) -> String {
    match e.payload.get(nome) {
        Some(Valor::Texto(s)) => s.clone(),
        outro => panic!("{nome}: {outro:?}"),
    }
}

#[test]
fn rejeita_acao_vazia() {
    let orch = Orchestrator;
    let p = na_taverna();
    let a = AcaoJogadorPayload { situation: "".into(), response: "".into() };
    assert!(orch.validar_acao(&p, &a).is_err());
}

#[test]
fn roteamento_respeita_cap_e_localizacao() {
    let orch = Orchestrator;
    let p = na_taverna();
    let npcs: Vec<Npc> = (0..10)
        .map(|i| {
            Npc::figurante(
                format!("npc_{i}"),
                format!("NPC {i}"),
                "neutro".into(),
                if i % 2 == 0 { "taverna".into() } else { "floresta".into() },
                false,
                String::new(),
            )
        })
        .collect();
    let roteados = orch.rotear_agentes(&p, &npcs);
    assert!(roteados.len() <= MAX_AGENTES_POR_TURNO);
    assert!(roteados.iter().all(|n| n.location_id == "taverna"));
}

#[test]
fn roteamento_pega_os_primeiros() {
    let npcs: Vec<Npc> = ["a", "b", "c", "d", "e", "f"]
        .iter()
        .map(|id| npc_em(id, if *id == "b" { "floresta" } else { "taverna" }))
        .collect();
    let r = Orchestrator.rotear_agentes(&na_taverna(), &npcs);
    let ids: Vec<&str> = r.iter().map(|n| n.id.as_str()).collect();
    assert_eq!(ids, vec!["a", "c", "d", "e"]);
    assert_eq!(AGENT_TIMEOUT_SECS, 8);
    assert!(Orchestrator.rotear_agentes(&na_taverna(), &[]).is_empty());
}

#[test]
fn acao_so_de_espaco_e_vazia() {
    let e = Orchestrator.validar_acao(&na_taverna(), &acao(" \u{a0}\u{3000}\n")).unwrap_err();
    assert_eq!(e.motivo, "acao_vazia");
    assert_eq!(e.detalhe, "a ação do jogador não pode ser vazia");
    assert!(Orchestrator.validar_acao(&na_taverna(), &acao(" oi ")).is_ok());
}

#[test]
fn turno_rejeitado_tem_um_evento() {
    let eventos = abrir_turno(&Orchestrator, &na_taverna(), &acao("  "), 4).unwrap();
    assert_eq!(eventos.len(), 1);
    assert!(eventos[0].event_type == EventType::AcaoRejeitada);
    assert_eq!(eventos[0].source, "guardrail_entrada");
    assert_eq!(eventos[0].turn, 4);
    assert_eq!(campo(&eventos[0], "motivo"), "acao_vazia");
    assert!(abrir_turno(&Orchestrator, &na_taverna(), &acao("oi"), 4).is_none());
}

#[test]
fn lote_do_turno_na_ordem() {
    let a = npc_em("a", "taverna");
    let b = npc_em("b", "taverna");
    let respostas = vec![
        ("a".to_string(), "-Olá".to_string()),
        ("b".to_string(), "*acena*".to_string()),
    ];
    assert_eq!(
        contexto_do_turno("bebo", &respostas),
        "Ação do jogador: bebo\na disse: -Olá\nb disse: *acena*"
    );
    let propostas = vec![
        MudancaProposta {
            campo: "player.hp".into(),
            operacao: "somar".into(),
            valor: Valor::Inteiro(-3),
            categoria: None,
        },
        MudancaProposta {
            campo: "player.classe".into(),
            operacao: "definir".into(),
            valor: Valor::Texto("mago".into()),
            categoria: None,
        },
    ];
    let mut p = na_taverna();
    let eventos =
        processar_turno(&Orchestrator, &mut p, 6, &[&a, &b], &respostas, &propostas).unwrap();
    assert_eq!(p.hp.atual, 7);
    let tipos: Vec<EventType> = eventos.iter().map(|e| e.event_type).collect();
    assert_eq!(
        tipos,
        vec![
            EventType::Dialogo,
            EventType::Dialogo,
            EventType::MudancaEstado,
            EventType::FimDeTurno,
        ]
    );
    assert_eq!(eventos[0].source, "a");
    assert_eq!(campo(&eventos[1], "texto"), "*acena*");
    assert!(matches!(
        eventos[3].payload.get("agentes_participantes"),
        Some(Valor::Textos(ids)) if ids == &vec!["a".to_string(), "b".to_string()]
    ));
    assert!(matches!(eventos[3].payload.get("turno"), Some(Valor::Inteiro(6))));
    assert!(eventos.iter().all(|e| e.turn == 6));
}

#[test]
fn cada_agente_roteado_reage_uma_vez() {
    let npcs: Vec<Npc> = (0..12)
        .map(|i| npc_em(&format!("n{i}"), if i % 2 == 0 { "taverna" } else { "rua" }))
        .collect();
    let mut p = na_taverna();
    let agentes = Orchestrator.rotear_agentes(&p, &npcs);
    let falas: Vec<String> = agentes.iter().map(|n| format!("-Sou {}", n.id)).collect();
    let respostas = reunir_reacoes(&agentes, falas);
    let eventos =
        processar_turno(&Orchestrator, &mut p, 1, &agentes, &respostas, &[]).unwrap();
    let falantes: Vec<&str> = eventos
        .iter()
        .filter(|e| e.event_type == EventType::Dialogo)
        .map(|e| e.source.as_str())
        .collect();
    assert_eq!(falantes, vec!["n0", "n2", "n4", "n6"]);
    assert_eq!(campo(&eventos[2], "texto"), "-Sou n4");
}

#[test]
fn reacoes_sem_par_nao_entram() {
    let (a, b) = (npc_em("a", "x"), npc_em("b", "x"));
    let par = |id: &str, fala: &str| (id.to_string(), fala.to_string());
    assert_eq!(reunir_reacoes(&[&a, &b], vec!["1".to_string()]), vec![par("a", "1")]);
    assert_eq!(
        reunir_reacoes(&[&a], vec!["1".to_string(), "2".to_string()]),
        vec![par("a", "1")]
    );
    assert!(reunir_reacoes(&[], vec![]).is_empty());
}

#[test]
fn turno_com_proposta_que_nao_cabe_diz_qual() {
    let mut p = na_taverna();
    p.hp.maximo = -1;
    let propostas = vec![MudancaProposta {
        campo: "player.hp".into(),
        operacao: "somar".into(),
        valor: Valor::Inteiro(1),
        categoria: None,
    }];
    assert_eq!(processar_turno(&Orchestrator, &mut p, 0, &[], &[], &propostas).unwrap_err(), 0);
}

#[test]
fn jogador_desconhecido_tem_a_ficha_inicial() {
    let p = jogador_do_turno(None);
    assert_eq!(p.id, "player_01");
    assert_eq!(p.location_id, "taverna_porto_velho");
    assert_eq!(jogador_do_turno(Some(na_taverna())).location_id, "taverna");
}

#[test]
fn encontro_fala_e_encerra() {
    let (fala, fim) = reagir_a_colisao(&npc_em("npc_x", "taverna"), 2, "-Você!");
    assert!(fala.event_type == EventType::Dialogo);
    assert_eq!(fala.source, "npc_x");
    assert_eq!(campo(&fala, "texto"), "-Você!");
    assert!(fim.event_type == EventType::InteracaoFinalizada);
    assert_eq!(campo(&fim, "agent_id"), "npc_x");
    assert_eq!(campo(&fim, "resultado"), "interacao_reativa_concluida");
    assert_ne!(fala.event_id, fim.event_id);
}
