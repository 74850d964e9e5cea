//! Propostas de mudança de estado.

use airpg_engine::events::{Event, EventType};
use airpg_engine::state::{Hp, ItemInventario, Npc, Player};
use airpg_engine::state_changes::{
    aplicar, aplicar_propostas, propor_e_validar, propor_mudancas, proposta_cabe, Decisao,
    MudancaProposta,
};
use airpg_engine::llm::Resposta;
use airpg_engine::tabela::Tabela;
use airpg_engine::valor::Valor;

fn jogador_da_taverna() -> Player {
    Player {
        id: "player_01".into(),
        hp: Hp { atual: 10, maximo: 20 },
        atributos: Tabela::new(),
        inventario: vec![ItemInventario {
            nome: "chave_enferrujada".into(),
            quantidade: 1,
            categoria: String::new(),
        }],
        location_id: "taverna".into(),
        nivel: 1,
        classe: "guerreiro".into(),
        xp: 0,
        nome_personagem: None,
        moedas: 15,
    }
}

fn mudanca(campo: &str, operacao: &str, valor: Valor, categoria: Option<&str>) -> MudancaProposta {
    MudancaProposta {
        campo: campo.into(),
        operacao: operacao.into(),
        valor,
        categoria: categoria.map(|c| c.to_string()),
    }
}

fn inteiro(n: i128) -> Valor {
    Valor::Inteiro(n)
}

fn texto(s: &str) -> Valor {
    Valor::Texto(s.to_string())
}

fn quantidade(e: &Event) -> i128 {
    match e.payload.get("quantidade") {
        Some(Valor::Inteiro(n)) => *n,
        outro => panic!("{outro:?}"),
    }
}

#[test]
fn rejeita_hp_no_op_quando_ja_esta_no_maximo() {
    let mut p = jogador_da_taverna();
    p.hp.atual = p.hp.maximo;
    let proposta = mudanca("player.hp", "somar", inteiro(5), None);
    assert!(aplicar(&mut p, 0, &proposta).is_err());
    assert_eq!(p.hp.atual, p.hp.maximo);
}

#[test]
fn aplica_gasto_de_moedas_e_nao_deixa_negativo() {
    let mut p = jogador_da_taverna();
    let proposta = mudanca("player.moedas", "somar", inteiro(-5), None);
    aplicar(&mut p, 0, &proposta).unwrap();
    assert_eq!(p.moedas, 10);

    let proposta_excede = mudanca("player.moedas", "somar", inteiro(-1000), None);
    aplicar(&mut p, 0, &proposta_excede).unwrap();
    assert_eq!(p.moedas, 0);
}

#[test]
fn rejeita_moedas_no_op() {
    let mut p = jogador_da_taverna();
    let proposta = mudanca("player.moedas", "somar", inteiro(0), None);
    assert!(aplicar(&mut p, 0, &proposta).is_err());
}

#[test]
fn evento_de_inventario_carrega_quantidade() {
    let mut p = jogador_da_taverna();
    let proposta =
        mudanca("player.inventario", "adicionar", texto("cerveja"), Some("consumivel"));
    let evento = aplicar(&mut p, 0, &proposta).unwrap();
    assert_eq!(quantidade(&evento), 1);

    let evento2 = aplicar(&mut p, 0, &proposta).unwrap();
    assert_eq!(quantidade(&evento2), 2);
}

fn npc_vendedor(nome: &str, item: &str, preco: u32) -> Npc {
    let mut n = Npc::figurante(
        format!("npc_{nome}"),
        nome.into(),
        "neutro".into(),
        "taverna".into(),
        true,
        String::new(),
    );
    n.moedas = Some(50);
    n.precos = Tabela::new().com(item, preco);
    n
}

#[test]
fn npc_vendedor_tem_preco_consultavel() {
    let bram = npc_vendedor("bram", "cerveja", 5);
    assert_eq!(bram.precos.get("cerveja"), Some(&5));
}

#[test]
fn aplica_dano_e_clampa_no_minimo_zero() {
    let mut p = jogador_da_taverna();
    let proposta = mudanca("player.hp", "somar", inteiro(-100), None);
    aplicar(&mut p, 0, &proposta).unwrap();
    assert_eq!(p.hp.atual, 0);
}

#[test]
fn aplica_cura_e_clampa_no_maximo() {
    let mut p = jogador_da_taverna();
    let proposta = mudanca("player.hp", "somar", inteiro(100), None);
    aplicar(&mut p, 0, &proposta).unwrap();
    assert_eq!(p.hp.atual, 20);
}

#[test]
fn rejeita_remover_item_inexistente() {
    let mut p = jogador_da_taverna();
    let proposta = mudanca("player.inventario", "remover", texto("espada_lendaria"), None);
    assert!(aplicar(&mut p, 0, &proposta).is_err());
    assert_eq!(p.inventario.len(), 1);
}

#[test]
fn rejeita_campo_fora_da_whitelist() {
    let mut p = jogador_da_taverna();
    let proposta = mudanca("player.nivel", "somar", inteiro(1), None);
    assert!(aplicar(&mut p, 0, &proposta).is_err());
}

#[test]
fn adiciona_item_novo_e_incrementa_quantidade_em_repeticao() {
    let mut p = jogador_da_taverna();
    let proposta = mudanca("player.inventario", "adicionar", texto("mapa"), Some("material"));
    assert!(aplicar(&mut p, 0, &proposta).is_ok());
    assert!(aplicar(&mut p, 0, &proposta).is_ok());
    assert_eq!(p.inventario.len(), 2);
    let mapa = p.inventario.iter().find(|i| i.nome == "mapa").unwrap();
    assert_eq!(mapa.quantidade, 2);
    assert_eq!(mapa.categoria, "material");
}

#[test]
fn remove_item_decrementa_e_so_apaga_quando_zera() {
    let mut p = jogador_da_taverna();
    let proposta_add =
        mudanca("player.inventario", "adicionar", texto("chave_enferrujada"), None);
    assert!(aplicar(&mut p, 0, &proposta_add).is_ok());
    assert_eq!(
        p.inventario.iter().find(|i| i.nome == "chave_enferrujada").unwrap().quantidade,
        2
    );

    let proposta_remover =
        mudanca("player.inventario", "remover", texto("chave_enferrujada"), None);
    assert!(aplicar(&mut p, 0, &proposta_remover).is_ok());
    assert_eq!(
        p.inventario.iter().find(|i| i.nome == "chave_enferrujada").unwrap().quantidade,
        1
    );

    assert!(aplicar(&mut p, 0, &proposta_remover).is_ok());
    assert!(p.inventario.iter().find(|i| i.nome == "chave_enferrujada").is_none());
}

#[test]
fn move_jogador_para_novo_local() {
    let mut p = jogador_da_taverna();
    let proposta = mudanca("player.location_id", "definir", texto("floresta_negra"), None);
    assert!(aplicar(&mut p, 0, &proposta).is_ok());
    assert_eq!(p.location_id, "floresta_negra");
}

#[test]
fn rejeita_destino_vazio() {
    let mut p = jogador_da_taverna();
    let proposta = mudanca("player.location_id", "definir", texto(""), None);
    assert!(aplicar(&mut p, 0, &proposta).is_err());
}

#[test]
fn cada_rejeicao_diz_a_sua_razao() {
    let mut p = jogador_da_taverna();
    let casos = [
        (
            mudanca("player.hp", "somar", texto("5"), None),
            "valor de player.hp nao e um inteiro",
        ),
        (
            mudanca("player.hp", "somar", inteiro(0), None),
            "player.hp: proposta nao muda o valor atual (no-op), descartando",
        ),
        (
            mudanca("player.moedas", "somar", Valor::Nulo, None),
            "valor de player.moedas nao e um inteiro",
        ),
        (
            mudanca("player.moedas", "somar", inteiro(0), None),
            "player.moedas: proposta nao muda o valor atual (no-op), descartando",
        ),
        (
            mudanca("player.inventario", "adicionar", inteiro(1), None),
            "valor de player.inventario nao e uma string",
        ),
        (
            mudanca("player.inventario", "remover", Valor::Booleano(true), None),
            "valor de player.inventario nao e uma string",
        ),
        (
            mudanca("player.inventario", "remover", texto("elmo"), None),
            "item 'elmo' nao esta no inventario, rejeitando remocao",
        ),
        (
            mudanca("player.location_id", "definir", inteiro(3), None),
            "valor de player.location_id nao e uma string",
        ),
        (
            mudanca("player.location_id", "definir", texto(" \t\n"), None),
            "destino vazio, rejeitando",
        ),
        (
            mudanca("player.hp", "definir", inteiro(3), None),
            "campo/operacao fora da whitelist: player.hp / definir",
        ),
    ];
    for (proposta, razao) in casos {
        assert!(proposta_cabe(&p, &proposta));
        assert_eq!(aplicar(&mut p, 0, &proposta).unwrap_err(), razao);
    }
    assert_eq!(p.hp.atual, 10);
    assert_eq!(p.moedas, 15);
    assert_eq!(p.location_id, "taverna");
}

#[test]
fn evento_de_hp_carrega_antes_e_depois() {
    let mut p = jogador_da_taverna();
    let e = aplicar(&mut p, 9, &mudanca("player.hp", "somar", inteiro(-4), None)).unwrap();
    assert!(e.event_type == EventType::MudancaEstado);
    assert_eq!(e.source, "orquestrador");
    assert_eq!(e.turn, 9);
    assert!(matches!(e.payload.get("anterior"), Some(Valor::Inteiro(10))));
    assert!(matches!(e.payload.get("atual"), Some(Valor::Inteiro(6))));
    assert!(matches!(e.payload.get("valor"), Some(Valor::Inteiro(-4))));
}

#[test]
fn lista_de_propostas_aplica_as_aceitas_na_ordem() {
    let mut p = jogador_da_taverna();
    let mut eventos: Vec<Event> = Vec::new();
    let propostas = vec![
        mudanca("player.moedas", "somar", inteiro(-5), None),
        mudanca("player.nivel", "somar", inteiro(1), None),
        mudanca("player.inventario", "adicionar", texto("cerveja"), None),
    ];
    assert_eq!(aplicar_propostas(&mut p, 0, &propostas, &mut eventos), Ok(()));
    assert_eq!(eventos.len(), 2);
    assert_eq!(p.moedas, 10);
    assert_eq!(p.inventario.len(), 2);
}

#[test]
fn proposta_que_nao_cabe_para_a_lista() {
    let mut p = jogador_da_taverna();
    p.inventario[0].quantidade = u32::MAX;
    let mut eventos: Vec<Event> = Vec::new();
    let propostas = vec![
        mudanca("player.moedas", "somar", inteiro(-5), None),
        mudanca("player.inventario", "adicionar", texto("chave_enferrujada"), None),
    ];
    assert!(!proposta_cabe(&p, &propostas[1]));
    assert_eq!(aplicar_propostas(&mut p, 0, &propostas, &mut eventos), Err(1));
    assert_eq!(eventos.len(), 1);
}

#[test]
fn lei_adicionar_e_remover_devolve_a_ficha() {
    let mut p = jogador_da_taverna();
    let antes = format!("{p:?}");
    aplicar(&mut p, 0, &mudanca("player.inventario", "adicionar", texto("mapa"), None)).unwrap();
    aplicar(&mut p, 0, &mudanca("player.inventario", "remover", texto("mapa"), None)).unwrap();
    assert_eq!(format!("{p:?}"), antes);
}

#[test]
fn consulta_sem_resposta_nao_propoe_nada() {
    assert!(propor_mudancas(Resposta::Falha).is_empty());
    assert!(propor_mudancas(Resposta::Ilegivel).is_empty());
    let lida = propor_mudancas(Resposta::Lida(vec![mudanca("a", "b", Valor::Nulo, None)]));
    assert_eq!(lida.len(), 1);
}

fn refaz(d: Decisao) -> String {
    match d {
        Decisao::Refazer(p) => p.user,
        Decisao::Aceitar(_) => panic!("aceitou"),
    }
}

#[test]
fn item_sem_pagamento_pede_correcao() {
    let bram = npc_vendedor("Bram", "cerveja", 5);
    let propostas = vec![mudanca("player.inventario", "adicionar", texto("cerveja"), None)];
    let aviso = refaz(propor_e_validar("ctx", &[&bram], propostas));
    assert_eq!(
        aviso,
        "ctx\n\nATENÇÃO: você propôs que o jogador ganhasse \"cerveja\", que custa 5 moedas na loja de Bram. \
         Isso só é válido se o texto acima deixa claro que foi de graça, recompensa, achado ou roubado. Reescreva a lista de mudanças: \
         se foi uma compra normal, inclua também {\"campo\": \"player.moedas\", \"operacao\": \"somar\", \"valor\": -5}. \
         Se não houve pagamento nem justificativa clara no texto original, remova a proposta de ganhar \"cerveja\"."
    );
}

#[test]
fn preco_errado_pede_correcao() {
    let bram = npc_vendedor("Bram", "cerveja", 5);
    let propostas = vec![
        mudanca("player.inventario", "adicionar", texto("cerveja"), None),
        mudanca("player.moedas", "somar", inteiro(-3), None),
    ];
    let aviso = refaz(propor_e_validar("ctx", &[&bram], propostas));
    assert_eq!(
        aviso,
        "ctx\n\nATENÇÃO: \"cerveja\" tem preço FIXO de 5 moedas na loja de Bram — o preço não é negociável nem decidido pela narração. \
         Reescreva a lista de mudanças usando exatamente {\"campo\": \"player.moedas\", \"operacao\": \"somar\", \"valor\": -5} para o pagamento."
    );
}

#[test]
fn pagamento_sem_item_pede_correcao() {
    let bram = npc_vendedor("Bram", "cerveja", 5);
    let propostas = vec![mudanca("player.moedas", "somar", inteiro(-5), None)];
    let aviso = refaz(propor_e_validar("ctx", &[&bram], propostas));
    assert_eq!(
        aviso,
        "ctx\n\nATENÇÃO: você propôs debitar 5 moedas do jogador — valor que corresponde exatamente ao preço de \"cerveja\" \
         cobrado por Bram — mas não incluiu a proposta de adicionar \"cerveja\" ao inventário do jogador. Reescreva a lista de mudanças \
         incluindo também {\"campo\": \"player.inventario\", \"operacao\": \"adicionar\", \"valor\": \"cerveja\", \"categoria\": \"consumivel\"}, \
         a menos que o texto deixe claro que o pagamento foi por outro motivo (ex: multa, aluguel, gorjeta) e não por esse item."
    );
}

#[test]
fn compra_exata_e_aceita() {
    let bram = npc_vendedor("Bram", "cerveja", 5);
    let propostas = vec![
        mudanca("player.inventario", "adicionar", texto("cerveja"), None),
        mudanca("player.moedas", "somar", inteiro(-5), None),
    ];
    match propor_e_validar("ctx", &[&bram], propostas) {
        Decisao::Aceitar(ps) => assert_eq!(ps.len(), 2),
        Decisao::Refazer(p) => panic!("{}", p.user),
    }
}

#[test]
fn sem_precos_conhecidos_tudo_e_aceito() {
    let propostas = vec![mudanca("player.inventario", "adicionar", texto("cerveja"), None)];
    assert!(matches!(propor_e_validar("ctx", &[], propostas), Decisao::Aceitar(_)));
}

#[test]
fn lista_recusada_e_corrigida_uma_vez() {
    let bram = npc_vendedor("Bram", "cerveja", 5);
    let ganhar = || vec![mudanca("player.inventario", "adicionar", texto("cerveja"), None)];
    let recusada = || propor_e_validar("ctx", &[&bram], ganhar());

    let pedido = recusada();
    assert!(pedido.consulta().unwrap().user.starts_with("ctx\n\nATENÇÃO"));
    let outra = vec![mudanca("player.hp", "somar", inteiro(-1), None)];
    let r = pedido.concluir(Some(Resposta::Lida(outra)));
    assert_eq!(r.len(), 1);
    assert_eq!(r[0].campo, "player.hp");

    let r = recusada().concluir(Some(Resposta::Lida(ganhar())));
    assert_eq!(r.len(), 1);
    assert_eq!(r[0].campo, "player.inventario");

    assert!(recusada().concluir(Some(Resposta::Falha)).is_empty());
    assert!(recusada().concluir(Some(Resposta::Ilegivel)).is_empty());
    assert!(recusada().concluir(None).is_empty());
}

#[test]
fn lista_aceita_nao_e_consultada_de_novo() {
    let bram = npc_vendedor("Bram", "cerveja", 5);
    let aceita = || {
        let cura = vec![mudanca("player.hp", "somar", inteiro(2), None)];
        propor_e_validar("ctx", &[&bram], cura)
    };
    assert!(aceita().consulta().is_none());
    assert_eq!(aceita().concluir(None).len(), 1);
    let r = aceita().concluir(Some(Resposta::Lida(vec![])));
    assert_eq!(r[0].campo, "player.hp");
}

#[test]
fn compra_entre_itens_do_mesmo_preco_e_aceita() {
    let mut bram = npc_vendedor("Bram", "cerveja", 5);
    bram.precos = Tabela::new().com("cerveja", 5).com("pao", 5).com("vela", 1);
    for item in ["cerveja", "pao"] {
        let propostas = vec![
            mudanca("player.inventario", "adicionar", texto(item), None),
            mudanca("player.moedas", "somar", inteiro(-5), None),
        ];
        assert!(matches!(propor_e_validar("", &[&bram], propostas), Decisao::Aceitar(_)));
    }
    let propostas = vec![mudanca("player.moedas", "somar", inteiro(-5), None)];
    assert!(matches!(propor_e_validar("", &[&bram], propostas), Decisao::Refazer(_)));
}

#[test]
fn pagamento_enorme_nao_e_o_preco_de_nada() {
    let bram = npc_vendedor("Bram", "cerveja", 5);
    for valor in [-4294967301, -4294967296, i64::MIN as i128] {
        let propostas = vec![mudanca("player.moedas", "somar", inteiro(valor), None)];
        assert!(matches!(propor_e_validar("", &[&bram], propostas), Decisao::Aceitar(_)));
    }
    let caro = npc_vendedor("Bram", "castelo", u32::MAX);
    let propostas = vec![mudanca("player.moedas", "somar", inteiro(-4294967295), None)];
    assert!(refaz(propor_e_validar("", &[&caro], propostas)).contains("debitar 4294967295 moedas"));
}

#[test]
fn preco_de_outro_vendedor_prevalece() {
    let bram = npc_vendedor("Bram", "cerveja", 5);
    let gerta = npc_vendedor("Gerta", "cerveja", 7);
    let propostas = vec![mudanca("player.moedas", "somar", inteiro(-7), None)];
    let aviso = refaz(propor_e_validar("", &[&bram, &gerta], propostas));
    assert!(aviso.contains("cobrado por Gerta"));
    let propostas = vec![mudanca("player.moedas", "somar", inteiro(-5), None)];
    assert!(matches!(propor_e_validar("", &[&bram, &gerta], propostas), Decisao::Aceitar(_)));
}
