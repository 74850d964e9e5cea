//! Consolidação de memória e reações.

use airpg_engine::consolidacao::{
    consolidar, limitar_bounds, pedido_de_consolidacao, ConsolidacaoGerada, SYSTEM_PROMPT,
};
use airpg_engine::guardrail::{GuardrailSaida, Passo};
use airpg_engine::llm::{LlmClient, Resposta};
use airpg_engine::reacoes::{
    aplicar_consolidacao, dialogar, gerar_e_revisar, montar_system_prompt, processar_interacao,
    Dialogo, EixosEscritos, CONSISTENCIA, FORMATO,
};
use airpg_engine::skills::ResultadoDados;
use airpg_engine::state::{Cena, Eixo, EstadoEmocional, MemoriaNpc, Npc};

fn eixo(x: f32) -> Eixo {
    Eixo { bits: x.to_bits() }
}

fn numero(e: Eixo) -> f32 {
    f32::from_bits(e.bits)
}

fn bram() -> Npc {
    Npc::figurante(
        "npc_bram".to_string(),
        "Bram".to_string(),
        "neutro".to_string(),
        "taverna".to_string(),
        true,
        String::new(),
    )
}

fn taverna() -> Cena {
    Cena {
        location_id: "taverna".to_string(),
        nome: "A Taverna".to_string(),
        descricao: "Quente e cheia.".to_string(),
        fatos_estabelecidos: vec![],
    }
}

fn sem_eixos() -> EixosEscritos {
    EixosEscritos {
        prazer: "0.5".to_string(),
        ativacao: "-0.2".to_string(),
        dominancia: "0.0".to_string(),
        confianca: "0.1".to_string(),
        respeito: "0.2".to_string(),
        afinidade: "0.3".to_string(),
    }
}

#[test]
fn limita_eixos_fora_do_intervalo() {
    let e = EstadoEmocional {
        prazer: eixo(5.0),
        ativacao: eixo(-5.0),
        dominancia: eixo(2.0),
        confianca: eixo(-2.0),
        respeito: eixo(0.5),
        afinidade: eixo(0.0),
        tags: vec![],
        lente_perceptiva: String::new(),
        motivacao_imediata: String::new(),
    };
    let limitado = limitar_bounds(e);
    assert_eq!(numero(limitado.prazer), 1.0);
    assert_eq!(numero(limitado.ativacao), -1.0);
    assert_eq!(numero(limitado.dominancia), 1.0);
    assert_eq!(numero(limitado.confianca), -1.0);
}

#[test]
fn limita_quantidade_de_tags() {
    let e = EstadoEmocional {
        tags: vec!["a".into(), "b".into(), "c".into(), "d".into(), "e".into(), "f".into()],
        ..Default::default()
    };
    let limitado = limitar_bounds(e);
    assert_eq!(limitado.tags.len(), 5);
}

#[test]
fn eixo_limita_e_compara_como_o_numero() {
    let casos = [
        0.0_f32,
        -0.0,
        0.1,
        -0.1,
        0.100001,
        -0.100001,
        0.5,
        1.0,
        -1.0,
        1.0000001,
        -1.0000001,
        f32::MAX,
        f32::MIN,
        f32::INFINITY,
        f32::NEG_INFINITY,
        f32::MIN_POSITIVE,
    ];
    for x in casos {
        assert_eq!(eixo(x).limitar().bits, x.clamp(-1.0, 1.0).to_bits(), "{x}");
        assert_eq!(eixo(x).eh_relevante(), x.abs() > 0.1, "{x}");
        assert!(!eixo(x).eh_nao_numero());
        for y in casos {
            assert_eq!(
                eixo(x).ordem_inteira() < eixo(y).ordem_inteira(),
                x < y,
                "{x} {y}"
            );
        }
    }
    assert!(eixo(f32::NAN).eh_nao_numero());
    assert!(!eixo(f32::NAN).eh_relevante());
    assert_eq!(eixo(f32::NAN).limitar().bits, f32::NAN.clamp(-1.0, 1.0).to_bits());
}

#[test]
fn pedido_leva_o_resumo_e_as_trocas() {
    let trocas = vec![
        ("oi".to_string(), "ola".to_string()),
        ("tchau".to_string(), "ate".to_string()),
    ];
    let p = pedido_de_consolidacao("Bram", "amigos", &trocas);
    assert_eq!(p.system, SYSTEM_PROMPT);
    assert_eq!(
        p.user,
        "Resumo anterior: amigos\n\nTrocas recentes:\nJogador: oi\nBram: ola\nJogador: tchau\nBram: ate"
    );
}

#[test]
fn consolidacao_so_vale_se_foi_lida() {
    assert!(consolidar(Resposta::Falha).is_none());
    assert!(consolidar(Resposta::Ilegivel).is_none());
    let r = consolidar(Resposta::Lida(ConsolidacaoGerada {
        resumo: "r".to_string(),
        estado_emocional: EstadoEmocional { respeito: eixo(9.0), ..Default::default() },
    }))
    .unwrap();
    assert_eq!(r.resumo, "r");
    assert_eq!(numero(r.estado_emocional.respeito), 1.0);
}

#[test]
fn prompt_minimo_do_agente() {
    let s = montar_system_prompt(
        &bram(),
        &taverna(),
        &MemoriaNpc::default(),
        &sem_eixos(),
        None,
        None,
    );
    assert_eq!(
        s,
        format!(
            "Você é Bram, um NPC num RPG de fantasia medieval. Sua atitude de base com o jogador é: neutro.\n\n\
             Você está em A Taverna (Quente e cheia.). Fatos estabelecidos sobre este lugar — você NÃO pode contradizer ou inventar por cima deles: nenhum fato adicional registrado ainda.\n\n\
             {CONSISTENCIA}\n\n{FORMATO}"
        )
    );
}

#[test]
fn prompt_completo_do_agente() {
    let mut npc = bram();
    npc.descricao = "Dono da casa.".to_string();
    npc.interesses = vec!["paz".to_string(), "ouro".to_string()];
    let mut cena = taverna();
    cena.fatos_estabelecidos = vec!["chove".to_string(), "é noite".to_string()];
    let mut memoria = MemoriaNpc::default();
    memoria.resumo = "já se viram".to_string();
    memoria.estado_emocional.prazer = eixo(0.5);
    memoria.estado_emocional.lente_perceptiva = "Cautela".to_string();
    memoria.estado_emocional.motivacao_imediata = "vender".to_string();
    let dados = ResultadoDados { schema_version: 1, rolagem: 7, dificuldade: 12, sucesso: false };
    let s = montar_system_prompt(
        &npc,
        &cena,
        &memoria,
        &sem_eixos(),
        Some(&dados),
        Some("Olá, viajante"),
    );
    let partes: Vec<&str> = s.split("\n\n").collect();
    assert_eq!(partes.len(), 9);
    assert!(partes[0].ends_with("é: neutro. Dono da casa."));
    assert_eq!(partes[1], "Suas motivações/necessidades concretas: paz; ouro.");
    assert!(partes[2].ends_with("por cima deles: chove; é noite"));
    assert_eq!(
        partes[3],
        "Seu estado emocional atual em relação a este jogador: prazer=0.5, ativação=-0.2, dominância=0.0, confiança=0.1, respeito=0.2, afinidade=0.3. Você está enxergando o jogador através de: Cautela. Sua motivação imediata agora: vender."
    );
    assert_eq!(partes[4], "Resumo do que já aconteceu entre vocês: já se viram");
    assert_eq!(
        partes[5],
        "O jogador tentou uma ação que exigiu um teste de dados. Resultado JÁ DECIDIDO, você não pode contradizer: rolagem 7 contra dificuldade 12 → FRACASSO. Narre sua reação de forma consistente com esse resultado."
    );
    assert_eq!(partes[6], CONSISTENCIA);
    assert_eq!(partes[7], FORMATO);
    assert_eq!(
        partes[8],
        "IMPORTANTE: você (ou outro personagem por aqui) já disse algo muito parecido com isto recentemente — não repita: \"Olá, viajante\". Responda de um jeito genuinamente diferente."
    );
    let sem = montar_system_prompt(&npc, &cena, &memoria, &sem_eixos(), Some(&dados), None);
    assert_eq!(s, format!("{sem}\n\n{}", partes[8]));
}

#[test]
fn emocao_fraca_nao_entra_no_prompt() {
    let mut memoria = MemoriaNpc::default();
    memoria.estado_emocional.prazer = eixo(0.1);
    memoria.estado_emocional.confianca = eixo(1.0);
    let s = montar_system_prompt(&bram(), &taverna(), &memoria, &sem_eixos(), None, None);
    assert!(!s.contains("Seu estado emocional"));
    memoria.estado_emocional.dominancia = eixo(-0.2);
    let s = montar_system_prompt(&bram(), &taverna(), &memoria, &sem_eixos(), None, None);
    assert!(s.contains("Seu estado emocional"));
    assert!(s.contains("afinidade=0.3. \n\n"));
}

#[test]
fn sem_resposta_o_npc_hesita() {
    let g = GuardrailSaida::new(LlmClient::from_env(None, None, None));
    match gerar_e_revisar(&g, &bram(), None, None) {
        Passo::Pronto(t) => assert_eq!(t, "*Bram hesita, sem saber o que responder.*"),
        Passo::Perguntar(_) => panic!("revisou a hesitação"),
    }
    match gerar_e_revisar(&g, &bram(), Some("-Olá".to_string()), None) {
        Passo::Perguntar(r) => {
            assert_eq!(r.texto, "-Olá");
            assert_eq!(r.tentativa, 1);
        },
        Passo::Pronto(_) => panic!("não revisou"),
    }
}

#[test]
fn fala_repetida_so_e_refeita_uma_vez() {
    let frase = || Some("oi".to_string());
    assert!(matches!(dialogar("t".to_string(), false, frase()), Dialogo::Refazer(f) if f == "oi"));
    assert!(matches!(dialogar("t".to_string(), true, frase()), Dialogo::Dizer(t) if t == "t"));
    assert!(matches!(dialogar("t".to_string(), false, None), Dialogo::Dizer(t) if t == "t"));
}

#[test]
fn memoria_consolida_a_cada_cinco_turnos() {
    let mut m = MemoriaNpc::default();
    for i in 1..=4 {
        assert!(processar_interacao(&mut m, &bram(), &format!("p{i}"), "r").is_none());
        assert_eq!(m.turnos_desde_consolidacao, i);
    }
    let consulta = processar_interacao(&mut m, &bram(), "p5", "r").unwrap();
    assert!(consulta.user.ends_with(
        "Trocas recentes:\nJogador: p1\nBram: r\nJogador: p2\nBram: r\nJogador: p3\nBram: r\nJogador: p4\nBram: r\nJogador: p5\nBram: r"
    ));
    assert_eq!(m.ctx.len(), 3);
    assert_eq!(m.ctx[0].0, "p3");
    aplicar_consolidacao(&mut m, None);
    assert_eq!(m.turnos_desde_consolidacao, 5);
    assert_eq!(m.saidas.len(), 2);
    let consulta = processar_interacao(&mut m, &bram(), "p6", "r").unwrap();
    assert!(consulta.user.contains("Jogador: p1\n"));
    assert!(consulta.user.ends_with("Jogador: p6\nBram: r"));
    assert_eq!(m.saidas.len(), 3);
    let r = consolidar(Resposta::Lida(ConsolidacaoGerada {
        resumo: "novo".to_string(),
        estado_emocional: EstadoEmocional::default(),
    }));
    aplicar_consolidacao(&mut m, r);
    assert_eq!(m.turnos_desde_consolidacao, 0);
    assert_eq!(m.resumo, "novo");
    assert_eq!(m.ctx.len(), 3);
    assert!(m.saidas.is_empty());
}
