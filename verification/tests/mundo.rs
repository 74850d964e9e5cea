//! Personagens, livre-arbítrio e o que se grava do mundo.

use airpg_engine::db::{
    adicionar_fato_a_cena, get_cena, get_memoria, get_ou_criar_player, historico_do_jogador,
    migrar_npc_memoria, registrar_troca, salvar_memoria, seed_se_vazio, upsert_cena, ErroDeDados,
    LinhaCena, LinhaMemoria, MAX_FATOS_POR_CENA,
};
use airpg_engine::events::{Event, EventType, Instante};
use airpg_engine::livre_arbitrio::{
    escolher, fala_ambiente, gerar_conversa, pedido_de_acao_autonoma, pedido_de_conversa,
    sortear_ator, tick, AcaoAutonomaProposta, AcaoDoTick, FalaProposta,
};
use airpg_engine::llm::Resposta;
use airpg_engine::personagens::{
    gerar_e_registrar_personagem, gerar_id_unico, gerar_personagem, montar_slug,
    pedido_de_personagem, PersonagemProposto,
};
use airpg_engine::state::{Cena, EstadoEmocional, Hp, MemoriaNpc, Npc, NpcStatus, Player};
use airpg_engine::tabela::Tabela;
use airpg_engine::valor::Valor;

fn morador(id: &str, local: &str) -> Npc {
    Npc::figurante(
        id.to_string(),
        format!("N{id}"),
        "neutro".to_string(),
        local.to_string(),
        true,
        String::new(),
    )
}

fn proposto(nome: &str, descricao: &str, atitude: &str) -> Resposta<PersonagemProposto> {
    Resposta::Lida(PersonagemProposto {
        nome: nome.to_string(),
        descricao: descricao.to_string(),
        atitude_com_jogador: atitude.to_string(),
        autonomo: true,
    })
}

fn sufixo(nome: &str, local: &str) -> u64 {
    let mut hash: u64 = 0;
    for b in format!("{nome}{local}").bytes() {
        hash = hash.wrapping_mul(31).wrapping_add(b as u64);
    }
    hash & 0xffff
}

#[test]
fn id_gerado_e_o_slug_com_sufixo() {
    let casos = [
        ("Velho Tom", "velho_tom"),
        ("  Dona  Ágata -- a 2ª ", "dona_ágata_a_2ª"),
        ("__x__Y__", "x_y"),
        ("!!!", ""),
        ("ÉRICA", "érica"),
    ];
    for (nome, slug) in casos {
        assert_eq!(
            gerar_id_unico(nome, "porto"),
            format!("npc_gerado_{slug}_{:x}", sufixo(nome, "porto"))
        );
    }
    assert_ne!(gerar_id_unico("Tom", "a"), gerar_id_unico("Tom", "b"));
}

#[test]
fn slug_so_depende_das_marcas() {
    let cs: Vec<char> = "ab-c".chars().collect();
    assert_eq!(montar_slug(&cs, &[true, true, false, true]), "ab_c");
    assert_eq!(montar_slug(&cs, &[false, true, true, false]), "b-");
    assert_eq!(montar_slug(&cs, &[false; 4]), "");
}

#[test]
fn personagem_sem_nome_ou_descricao_e_descartado() {
    assert!(gerar_personagem(proposto(" ", "d", "neutro"), "l").is_none());
    assert!(gerar_personagem(proposto("n", "\n\t", "neutro"), "l").is_none());
    assert!(gerar_personagem(Resposta::Falha, "l").is_none());
    assert!(gerar_personagem(Resposta::Ilegivel, "l").is_none());
}

#[test]
fn atitude_desconhecida_vira_neutro() {
    let n = gerar_personagem(proposto("Tom", "ferreiro", "furioso"), "vila").unwrap();
    assert_eq!(n.atitude_com_jogador, "neutro");
    assert_eq!(n.nome, "Tom");
    assert_eq!(n.descricao, "ferreiro");
    assert_eq!(n.location_id, "vila");
    assert!(n.autonomo);
    assert!(n.hp.is_none());
    assert!(n.status == NpcStatus::Vivo);
    assert_eq!(n.id, gerar_id_unico("Tom", "vila"));
    let n = gerar_personagem(proposto("Tom", "ferreiro", "aliado"), "vila").unwrap();
    assert_eq!(n.atitude_com_jogador, "aliado");
}

#[test]
fn registro_corta_a_descricao() {
    let n = gerar_personagem(proposto("Tom", &"é".repeat(200), "neutro"), "vila").unwrap();
    assert_eq!(
        gerar_e_registrar_personagem(&n, "vila"),
        format!("Tom apareceu em vila: {}", "é".repeat(120))
    );
    let n = gerar_personagem(proposto("Tom", "curta", "neutro"), "vila").unwrap();
    assert_eq!(gerar_e_registrar_personagem(&n, "vila"), "Tom apareceu em vila: curta");
    assert_eq!(pedido_de_personagem("vila", "um rei").user, "Local: vila\nContexto/pedido: um rei");
}

#[test]
fn so_age_quem_pode() {
    let mut morto = morador("1", "a");
    morto.status = NpcStatus::Morto;
    let mut lutador = morador("2", "a");
    lutador.hp = Some(Hp { atual: 1, maximo: 1 });
    lutador.classe_armadura = Some(10);
    let mut parado = morador("3", "a");
    parado.autonomo = false;
    let npcs = vec![morto, lutador, parado];
    assert!(escolher(&npcs, 0, 0).is_none());
    assert!(sortear_ator(&npcs).is_none());
    let mut fragil = morador("4", "a");
    fragil.hp = Some(Hp { atual: 1, maximo: 1 });
    let npcs = vec![fragil];
    assert_eq!(escolher(&npcs, 0, 0).unwrap().candidatos[0].id, "4");
}

#[test]
fn escolha_segue_os_numeros() {
    let npcs = vec![morador("1", "a"), morador("2", "b"), morador("3", "a")];
    let s = escolher(&npcs, 2, 5).unwrap();
    assert_eq!(s.location_id, "a");
    assert_eq!(s.candidatos.len(), 2);
    assert_eq!(s.candidatos[s.ator].id, "3");
    let s = escolher(&npcs, 1, 9).unwrap();
    assert_eq!(s.location_id, "b");
    assert_eq!(s.candidatos[s.ator].id, "2");
    for _ in 0..50 {
        let s = sortear_ator(&npcs).unwrap();
        assert_eq!(s.candidatos[s.ator].location_id, s.location_id);
    }
}

#[test]
fn sorteio_varia() {
    let npcs: Vec<Npc> = (0..40).map(|i| morador(&i.to_string(), "a")).collect();
    let primeiro = sortear_ator(&npcs).unwrap().ator;
    assert!((0..200).any(|_| sortear_ator(&npcs).unwrap().ator != primeiro));
}

#[test]
fn pergunta_do_tick_lista_os_presentes() {
    let a = morador("1", "praça");
    let mut b = morador("2", "praça");
    b.descricao = "guarda".to_string();
    let p = pedido_de_acao_autonoma(&a, "praça", &[&a, &b]);
    assert_eq!(
        p.user,
        "Personagem agindo: N1 (id: 1)\nOutros presentes em praça: N1 (id: 1, papel: sem papel definido); N2 (id: 2, papel: guarda)"
    );
}

fn autonoma(tipo: &str, detalhe: &str, b: &str) -> Resposta<AcaoAutonomaProposta> {
    Resposta::Lida(AcaoAutonomaProposta {
        tipo: tipo.to_string(),
        detalhe: detalhe.to_string(),
        participante_b_id: b.to_string(),
    })
}

#[test]
fn tick_conversa_registra_ou_nada() {
    let a = morador("1", "x");
    let b = morador("2", "x");
    let presentes = [&a, &b];
    assert!(matches!(
        tick(&a, "x", &presentes, autonoma("conversar", "", "2")),
        AcaoDoTick::Conversar(n) if n.id == "2"
    ));
    for alvo in ["1", "9", ""] {
        match tick(&a, "x", &presentes, autonoma("conversar", " ", alvo)) {
            AcaoDoTick::Registrar { tipo, descricao } => {
                assert_eq!(tipo, "ambiente");
                assert_eq!(descricao, "N1 fez algo em x");
            },
            outro => panic!("{outro:?}"),
        }
    }
    match tick(&a, "x", &presentes, autonoma("mover", "vai embora", "2")) {
        AcaoDoTick::Registrar { tipo, descricao } => {
            assert_eq!(tipo, "mover");
            assert_eq!(descricao, "vai embora");
        },
        outro => panic!("{outro:?}"),
    }
    assert!(matches!(tick(&a, "x", &presentes, Resposta::Falha), AcaoDoTick::Nada));
    assert!(matches!(tick(&a, "x", &presentes, Resposta::Ilegivel), AcaoDoTick::Nada));
}

#[test]
fn prompt_da_conversa_descreve_os_dois() {
    let a = morador("1", "x");
    let mut b = morador("2", "x");
    b.descricao = "guarda".to_string();
    b.interesses = vec!["ouro".to_string(), "paz".to_string()];
    let p = pedido_de_conversa(&a, &b, "x");
    assert_eq!(p.user, "Local: x. Gere a conversa agora.");
    assert!(p.system.contains(
        "presente.\nN1 (id: 1) — sem descricao\nN2 (id: 2) — guarda Motivações: ouro; paz.\nResponda APENAS com um JSON no formato {\"falas\": [{\"npc_id\": \"...\", \"texto\": \"...\"}]}, com 2 a 4 falas alternando entre os dois ids.\nFORMATO"
    ));
}

#[test]
fn so_contam_falas_dos_dois() {
    let f = |id: &str, t: &str| FalaProposta { npc_id: id.to_string(), texto: t.to_string() };
    let falas = vec![f("1", "oi"), f("3", "intruso"), f("2", "  "), f("2", "olá")];
    let r = gerar_conversa(Resposta::Lida(falas), &morador("1", "x"), &morador("2", "x"));
    let vistas: Vec<(&str, &str)> =
        r.iter().map(|f| (f.npc_id.as_str(), f.texto.as_str())).collect();
    assert_eq!(vistas, vec![("1", "oi"), ("2", "olá")]);
    assert!(gerar_conversa(Resposta::Falha, &morador("1", "x"), &morador("2", "x")).is_empty());
    assert!(gerar_conversa(Resposta::Ilegivel, &morador("1", "x"), &morador("2", "x")).is_empty());
}

#[test]
fn fala_repetida_e_descartada() {
    assert!(fala_ambiente("1", 3, "oi", true).is_none());
    let e = fala_ambiente("1", 3, "oi", false).unwrap();
    assert!(e.event_type == EventType::Dialogo);
    assert_eq!(e.source, "1");
    assert!(matches!(e.payload.get("texto"), Some(Valor::Texto(t)) if t == "oi"));
}

#[test]
fn memoria_salva_e_lida_e_a_mesma() {
    let mut m = MemoriaNpc::default();
    registrar_troca(&mut m, "disse \"oi\"".to_string(), "linha\nnova \u{1f409}".to_string());
    m.resumo = "resumo".to_string();
    let l = salvar_memoria(&m).unwrap();
    assert_eq!(l.ctx, "[[\"disse \\\"oi\\\"\",\"linha\\nnova \u{1f409}\"]]");
    let lida = get_memoria(Some(l), Some(EstadoEmocional::default())).unwrap();
    assert_eq!(format!("{lida:?}"), format!("{m:?}"));
}

#[test]
fn memoria_ilegivel_e_erro() {
    let linha = |ctx: &str, saidas: &str| LinhaMemoria {
        ctx: ctx.to_string(),
        saidas: saidas.to_string(),
        resumo: "r".to_string(),
        turnos_desde_consolidacao: 0x1_0000_0003,
    };
    let l = |ctx: &str| linha(ctx, "[]");
    assert_eq!(get_memoria(Some(l("nada")), None).unwrap_err(), ErroDeDados::JsonInvalido);
    assert_eq!(
        get_memoria(Some(linha("[]", "nada")), None).unwrap_err(),
        ErroDeDados::JsonInvalido
    );
    assert_eq!(get_memoria(Some(l("[\"a\"]")), None).unwrap_err(), ErroDeDados::JsonInvalido);
    let m = get_memoria(Some(l("[]")), None).unwrap();
    assert_eq!(m.turnos_desde_consolidacao, 3);
    assert_eq!(m.resumo, "r");
    let m = get_memoria(None, None).unwrap();
    assert!(m.ctx.is_empty());
    assert_eq!(m.turnos_desde_consolidacao, 0);
}

#[test]
fn memoria_salva_guarda_o_que_saiu_da_janela() {
    let mut m = MemoriaNpc::default();
    for i in 0..4 {
        registrar_troca(&mut m, format!("p{i}"), format!("r{i}"));
    }
    let l = salvar_memoria(&m).unwrap();
    assert_eq!(l.saidas, "[[\"p0\",\"r0\"]]");
    assert_eq!(l.ctx, "[[\"p1\",\"r1\"],[\"p2\",\"r2\"],[\"p3\",\"r3\"]]");
    let lida = get_memoria(Some(l), Some(EstadoEmocional::default())).unwrap();
    assert_eq!(format!("{lida:?}"), format!("{m:?}"));
}

#[test]
fn nenhuma_troca_se_perde() {
    let mut m = MemoriaNpc::default();
    for i in 0..9 {
        registrar_troca(&mut m, format!("p{i}"), format!("r{i}"));
        let todas: Vec<&str> =
            m.saidas.iter().chain(m.ctx.iter()).map(|t| t.0.as_str()).collect();
        let esperadas: Vec<String> = (0..=i).map(|j| format!("p{j}")).collect();
        assert_eq!(todas, esperadas);
    }
}

#[test]
fn janela_guarda_as_tres_ultimas() {
    let mut m = MemoriaNpc::default();
    for i in 0..5 {
        registrar_troca(&mut m, format!("p{i}"), format!("r{i}"));
        assert!(m.ctx.len() <= 3);
        assert_eq!(m.ctx.last().unwrap().1, format!("r{i}"));
    }
    assert_eq!(m.ctx[0].0, "p2");
    assert_eq!(m.saidas.len(), 2);
    assert_eq!(m.saidas[1].1, "r1");
    assert_eq!(m.turnos_desde_consolidacao, 5);
}

fn cena(fatos: Vec<String>) -> Cena {
    Cena {
        location_id: "x".to_string(),
        nome: "n".to_string(),
        descricao: "d".to_string(),
        fatos_estabelecidos: fatos,
    }
}

#[test]
fn cena_gravada_e_lida_e_a_mesma() {
    let c = cena(vec!["um \"fato\"".to_string(), String::new(), "ção".to_string()]);
    let l = upsert_cena(&c).unwrap();
    assert_eq!(l.fatos, "[\"um \\\"fato\\\"\",\"\",\"ção\"]");
    let lida = get_cena("x", Some(l)).unwrap().unwrap();
    assert_eq!(format!("{lida:?}"), format!("{c:?}"));
    assert!(get_cena("x", None).unwrap().is_none());
    let ruim = LinhaCena {
        nome: String::new(),
        descricao: String::new(),
        fatos: "[1]".to_string(),
    };
    assert_eq!(get_cena("x", Some(ruim)).unwrap_err(), ErroDeDados::JsonInvalido);
}

#[test]
fn cena_guarda_os_fatos_mais_novos() {
    let mut c = cena(vec![]);
    for i in 0..25 {
        c = adicionar_fato_a_cena(Some(c), &format!("f{i}")).unwrap();
        assert!(c.fatos_estabelecidos.len() <= MAX_FATOS_POR_CENA);
    }
    assert_eq!(c.fatos_estabelecidos.len(), 20);
    assert_eq!(c.fatos_estabelecidos[0], "f5");
    assert_eq!(c.fatos_estabelecidos[19], "f24");
    assert!(adicionar_fato_a_cena(None, "f").is_none());
}

#[test]
fn jogador_novo_precisa_ser_gravado() {
    let (p, nova) = get_ou_criar_player(None, "ana");
    assert!(nova);
    assert_eq!(p.id, "ana");
    assert_eq!(p.hp, Hp { atual: 10, maximo: 10 });
    let mut velha = Player::seed("ana");
    velha.moedas = 9;
    let (p, nova) = get_ou_criar_player(Some(velha), "ana");
    assert!(!nova);
    assert_eq!(p.moedas, 9);
}

#[test]
fn historico_sai_do_mais_antigo() {
    let e = |t: u64| {
        Event::com_identidade(
            t as u128,
            Instante { segundos: 0, nanos: 0 },
            EventType::FimDeTurno,
            "o",
            t,
            Tabela::new(),
        )
    };
    let turnos: Vec<u64> =
        historico_do_jogador(vec![e(3), e(2), e(1)]).iter().map(|e| e.turn).collect();
    assert_eq!(turnos, vec![1, 2, 3]);
    assert!(historico_do_jogador(vec![]).is_empty());
}

#[test]
fn povoamento_nao_sobrescreve() {
    let (p, npcs) = seed_se_vazio(0, false, false);
    assert_eq!(p.unwrap().id, "player_01");
    let ids: Vec<&str> = npcs.iter().map(|n| n.id.as_str()).collect();
    assert_eq!(
        ids,
        vec!["npc_taverneiro_bram", "npc_cliente_gerta", "npc_guarda_holt", "npc_lobo_floresta"]
    );
    assert!(npcs[2].autonomo);
    assert_eq!(npcs[2].atitude_com_jogador, "desconfiado");
    let lobo = &npcs[3];
    assert_eq!(lobo.nome, "Lobo Selvagem");
    assert_eq!(lobo.hp, Some(Hp { atual: 12, maximo: 12 }));
    assert_eq!(lobo.classe_armadura, Some(12));
    assert_eq!(lobo.dano_dado_faces, Some(4));
    assert_eq!(lobo.xp_recompensa, Some(50));
    assert_eq!(lobo.loot, vec!["presa_de_lobo"]);
    assert!(lobo.status == NpcStatus::Hostil);
    let (p, npcs) = seed_se_vazio(3, false, false);
    assert!(p.is_none());
    assert_eq!(npcs.len(), 1);
    assert_eq!(npcs[0].id, "npc_lobo_floresta");
    let (p, npcs) = seed_se_vazio(4, true, true);
    assert!(p.is_none() && npcs.is_empty());
    let (p, npcs) = seed_se_vazio(0, false, true);
    assert!(p.is_none());
    assert_eq!(npcs.len(), 4);
}

#[test]
fn tabela_antiga_de_memoria_e_refeita() {
    let c = |ns: &[&str]| -> Vec<String> { ns.iter().map(|n| n.to_string()).collect() };
    assert!(migrar_npc_memoria(true, &c(&["npc_id", "ctx"])));
    assert!(!migrar_npc_memoria(true, &c(&["npc_id", "player_id"])));
    assert!(!migrar_npc_memoria(false, &[]));
}

#[test]
fn id_gerado_nunca_e_do_mundo_inicial() {
    let (_, npcs) = seed_se_vazio(0, false, false);
    for nome in ["Bram", "lobo floresta", "", "guarda_holt"] {
        let id = gerar_id_unico(nome, "floresta_negra");
        assert!(npcs.iter().all(|n| n.id != id));
    }
}
