//! O combate, pelos seus resultados.

use airpg_engine::combate::{
    iniciar, npcs_combatentes, resolver_rodada, rodada_cabe, Mesa, ResultadoRodada,
    TipoAcaoCombate,
};
use airpg_engine::events::EventType;
use airpg_engine::state::{Combate, Hp, Npc, NpcStatus, Player};
use airpg_engine::valor::Valor;

fn lutador() -> Player {
    let mut p = Player::seed("p1");
    p.location_id = "arena".to_string();
    p
}

fn lobo() -> Npc {
    let mut n = Npc::figurante(
        "npc_lobo".to_string(),
        "Lobo".to_string(),
        "hostil".to_string(),
        "arena".to_string(),
        false,
        String::new(),
    );
    n.status = NpcStatus::Hostil;
    n.hp = Some(Hp { atual: 12, maximo: 12 });
    n.classe_armadura = Some(12);
    n.dano_dado_faces = Some(4);
    n.xp_recompensa = Some(50);
    n.loot = vec!["presa".to_string()];
    n
}

fn luta() -> Combate {
    Combate {
        player_id: "p1".to_string(),
        npc_id: "npc_lobo".to_string(),
        rodada: 1,
        ativo: true,
    }
}

fn mesa() -> Mesa {
    Mesa { ca_jogador: 10, nivel_apos_vitoria: 1 }
}

fn tipos(r: &ResultadoRodada) -> Vec<EventType> {
    r.eventos.iter().map(|e| e.event_type).collect()
}

fn texto_do(r: &ResultadoRodada, i: usize, campo: &str) -> String {
    match r.eventos[i].payload.get(campo) {
        Some(Valor::Texto(s)) => s.clone(),
        outro => panic!("{campo}: {outro:?}"),
    }
}

fn numero_do(r: &ResultadoRodada, i: usize, campo: &str) -> i128 {
    match r.eventos[i].payload.get(campo) {
        Some(Valor::Inteiro(n)) => *n,
        outro => panic!("{campo}: {outro:?}"),
    }
}

#[test]
fn npc_nunca_fica_com_hp_negativo_em_muitas_rodadas() {
    for seed in 0..500 {
        let mut c = luta();
        let mut p = lutador();
        let mut n = lobo();
        let r = resolver_rodada(&mut c, &mut p, &mut n, TipoAcaoCombate::Atacar, mesa(), 0, seed);
        assert!(n.hp.as_ref().unwrap().atual >= 0);
        assert!(p.hp.atual >= 0);
        let _ = r;
    }
}

#[test]
fn npc_morre_gera_xp_e_loot_e_encerra_combate() {
    let mut c = luta();
    let mut p = lutador();
    let mut n = lobo();
    n.hp = Some(Hp { atual: 1, maximo: 12 });

    let mut seed = 7u64;
    let mut encerrado = false;
    for _ in 0..30 {
        let r = resolver_rodada(&mut c, &mut p, &mut n, TipoAcaoCombate::Atacar, mesa(), 0, seed);
        seed = seed.wrapping_add(1);
        if r.combate_encerrado {
            encerrado = true;
            if n.status == NpcStatus::Morto {
                assert_eq!(p.xp, 50);
                assert!(p.inventario.iter().any(|i| i.nome == "presa"));
            }
            break;
        }
        if p.hp.atual == 0 {
            break;
        }
    }
    assert!(encerrado, "combate deveria ter encerrado em 30 rodadas (jogador ou npc morre)");
}

#[test]
fn fuga_bem_sucedida_encerra_combate_sem_dano_do_npc() {
    for seed in 0..200 {
        let mut c = luta();
        let mut p = lutador();
        let mut n = lobo();
        let r = resolver_rodada(&mut c, &mut p, &mut n, TipoAcaoCombate::Fugir, mesa(), 0, seed);
        if r.combate_encerrado && p.hp.atual == 10 {
            return;
        }
    }
    panic!("nenhum seed testado produziu fuga bem sucedida — heurística pode estar errada");
}

#[test]
fn so_quem_tem_vida_e_armadura_e_nao_morreu_combate() {
    let mut morto = lobo();
    morto.status = NpcStatus::Morto;
    let pacato = Npc::figurante(
        "npc_bram".to_string(),
        "Bram".to_string(),
        "neutro".to_string(),
        "arena".to_string(),
        true,
        String::new(),
    );
    let mut sem_armadura = lobo();
    sem_armadura.classe_armadura = None;
    let mut sem_vida = lobo();
    sem_vida.hp = None;
    let npcs = vec![morto, pacato, sem_armadura, sem_vida, lobo()];
    let r = npcs_combatentes(&npcs);
    assert_eq!(r.len(), 1);
    assert_eq!(r[0].id, "npc_lobo");
    assert!(r[0].status == NpcStatus::Hostil);
}

#[test]
fn rodada_de_fichas_em_ordem_cabe() {
    for seed in 0..300 {
        for acao in [TipoAcaoCombate::Atacar, TipoAcaoCombate::Fugir, TipoAcaoCombate::Outro] {
            assert!(rodada_cabe(&luta(), &lutador(), &lobo(), acao, mesa(), seed));
        }
    }
}

#[test]
fn dado_sem_faces_so_cabe_se_nao_for_rolado() {
    let mut n = lobo();
    n.dano_dado_faces = Some(0);
    let sempre_acerta = Mesa { ca_jogador: 1, nivel_apos_vitoria: 1 };
    let nunca_acerta = Mesa { ca_jogador: 21, nivel_apos_vitoria: 1 };
    for seed in 0..50 {
        let cabe = |m| rodada_cabe(&luta(), &lutador(), &n, TipoAcaoCombate::Outro, m, seed);
        assert!(!cabe(sempre_acerta));
        assert!(cabe(nunca_acerta));
    }
}

#[test]
fn ultima_rodada_so_cabe_se_o_combate_acaba_nela() {
    let mut c = luta();
    c.rodada = u32::MAX;
    let nunca_acerta = Mesa { ca_jogador: 21, nivel_apos_vitoria: 1 };
    assert!(!rodada_cabe(&c, &lutador(), &lobo(), TipoAcaoCombate::Outro, nunca_acerta, 1));
    let mut caido = lutador();
    caido.hp.atual = 0;
    assert!(rodada_cabe(&c, &caido, &lobo(), TipoAcaoCombate::Outro, nunca_acerta, 1));
    for seed in 0..100 {
        let (mut d, mut p, mut n) = (luta(), lutador(), lobo());
        let r =
            resolver_rodada(&mut d, &mut p, &mut n, TipoAcaoCombate::Fugir, nunca_acerta, 0, seed);
        assert_eq!(
            rodada_cabe(&c, &lutador(), &lobo(), TipoAcaoCombate::Fugir, nunca_acerta, seed),
            r.combate_encerrado
        );
    }
}

#[test]
fn recompensa_que_estoura_o_xp_nao_cabe() {
    let mut p = lutador();
    p.xp = u32::MAX - 49;
    let mut n = lobo();
    n.hp = Some(Hp { atual: 1, maximo: 12 });
    n.classe_armadura = Some(1);
    let atacar = TipoAcaoCombate::Atacar;
    assert!(!rodada_cabe(&luta(), &p, &n, atacar, mesa(), 7));
    p.xp = u32::MAX - 50;
    assert!(rodada_cabe(&luta(), &p, &n, atacar, mesa(), 7));
    n.hp = Some(Hp { atual: i32::MIN, maximo: 12 });
    assert!(!rodada_cabe(&luta(), &p, &n, atacar, mesa(), 7));
}

#[test]
fn combate_comeca_na_primeira_rodada() {
    let c = iniciar("p1", "npc_lobo", 99);
    assert_eq!(c.player_id, "p1");
    assert_eq!(c.npc_id, "npc_lobo");
    assert_eq!(c.rodada, 1);
    assert!(c.ativo);
}

#[test]
fn vitoria_conta_os_eventos_na_ordem() {
    for seed in 0..500 {
        let mut c = luta();
        let mut p = lutador();
        let mut n = lobo();
        n.hp = Some(Hp { atual: 1, maximo: 12 });
        let m = Mesa { ca_jogador: 10, nivel_apos_vitoria: 2 };
        let r = resolver_rodada(&mut c, &mut p, &mut n, TipoAcaoCombate::Atacar, m, 3, seed);
        if n.status != NpcStatus::Morto {
            continue;
        }
        assert!(r.combate_encerrado);
        assert!(!c.ativo);
        assert_eq!(p.nivel, 2);
        assert_eq!(p.hp.atual, 10);
        assert_eq!(
            tipos(&r),
            vec![
                EventType::AtaqueResolvido,
                EventType::MudancaEstado,
                EventType::SubiuDeNivel,
                EventType::MudancaEstado,
                EventType::CombateEncerrado,
            ]
        );
        assert_eq!(texto_do(&r, 1, "campo"), "player.xp");
        assert_eq!(numero_do(&r, 1, "atual"), 50);
        assert_eq!(numero_do(&r, 2, "nivel_anterior"), 1);
        assert_eq!(numero_do(&r, 2, "nivel_novo"), 2);
        assert_eq!(texto_do(&r, 3, "valor"), "presa");
        assert_eq!(texto_do(&r, 4, "motivo"), "inimigo_derrotado");
        assert!(r.eventos.iter().all(|e| e.turn == 3));
        return;
    }
    panic!("nenhuma semente deu vitória");
}

#[test]
fn morte_do_jogador_encerra_o_combate() {
    for seed in 0..500 {
        let mut c = luta();
        let mut p = lutador();
        p.hp.atual = 1;
        let mut n = lobo();
        let r = resolver_rodada(&mut c, &mut p, &mut n, TipoAcaoCombate::Outro, mesa(), 0, seed);
        if p.hp.atual > 0 {
            assert!(!r.combate_encerrado);
            assert_eq!(c.rodada, 2);
            assert_eq!(tipos(&r), vec![EventType::AtaqueResolvido]);
            continue;
        }
        assert!(r.combate_encerrado);
        assert_eq!(
            tipos(&r),
            vec![
                EventType::AtaqueResolvido,
                EventType::JogadorMorreu,
                EventType::CombateEncerrado,
            ]
        );
        assert_eq!(texto_do(&r, 1, "causa"), "combate contra Lobo");
        assert_eq!(texto_do(&r, 2, "motivo"), "jogador_morreu");
        return;
    }
    panic!("nenhuma semente matou o jogador");
}

#[test]
fn fuga_que_falha_deixa_o_npc_reagir() {
    for seed in 0..500 {
        let mut c = luta();
        let mut p = lutador();
        let mut n = lobo();
        let r = resolver_rodada(&mut c, &mut p, &mut n, TipoAcaoCombate::Fugir, mesa(), 0, seed);
        assert_eq!(texto_do(&r, 0, "tipo"), "fuga");
        assert_eq!(numero_do(&r, 0, "dificuldade"), 12);
        if numero_do(&r, 0, "rolagem") < 12 {
            assert!(!r.combate_encerrado);
            assert_eq!(r.eventos.len(), 2);
            assert_eq!(r.eventos[1].source, "npc_lobo");
            return;
        }
        assert_eq!(texto_do(&r, 1, "motivo"), "jogador_fugiu");
    }
    panic!("nenhuma semente fez a fuga falhar");
}

#[test]
fn item_ja_possuido_nao_se_repete_no_saque() {
    for seed in 0..500 {
        let mut c = luta();
        let mut p = lutador();
        let mut n = lobo();
        n.hp = Some(Hp { atual: 1, maximo: 12 });
        n.loot = vec!["presa".to_string(), "presa".to_string()];
        let r = resolver_rodada(&mut c, &mut p, &mut n, TipoAcaoCombate::Atacar, mesa(), 0, seed);
        if n.status == NpcStatus::Morto {
            assert_eq!(p.inventario.len(), 1);
            assert_eq!(r.eventos.len(), 4);
            return;
        }
    }
    panic!("nenhuma semente deu vitória");
}

#[test]
fn rodada_so_muda_vida_xp_nivel_e_inventario() {
    for seed in 0..300 {
        let mut c = luta();
        let mut p = lutador();
        let mut n = lobo();
        n.hp = Some(Hp { atual: 3, maximo: 12 });
        let (p0, n0) = (p.clone(), n.clone());
        resolver_rodada(&mut c, &mut p, &mut n, TipoAcaoCombate::Atacar, mesa(), 0, seed);
        assert_eq!(p.hp.maximo, p0.hp.maximo);
        assert_eq!(n.hp.unwrap().maximo, 12);
        p.hp = p0.hp;
        p.xp = p0.xp;
        p.nivel = p0.nivel;
        p.inventario = p0.inventario.clone();
        n.hp = n0.hp;
        n.status = n0.status;
        assert_eq!(format!("{p:?}"), format!("{p0:?}"));
        assert_eq!(format!("{n:?}"), format!("{n0:?}"));
    }
}
