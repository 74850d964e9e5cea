//! Combate: o jogador contra um NPC hostil por vez. Toda rolagem é
//! `skill_rolar_dado`; o Mestre de Jogo decide só quando um combate começa e
//! que tipo de ação o jogador tenta, nunca o resultado numérico.

use crate::events::{anotar, fatos, identificados, Event, EventType, Fato};
use crate::skills::{face, modulo_64, passo_congruencial, skill_rolar_dado};
use crate::state::{
    itens, Combate, CombateView, Hp, ItemInventario, ItemView, Npc, NpcStatus, NpcView, Player,
    PlayerView,
};
use crate::tabela::Tabela;
use crate::texto::{mesmo_texto, textos};
use crate::valor::{vazio, ObjetoView, Valor, ValorView};
use vstd::prelude::*;

verus! {

pub const DANO_JOGADOR_FACES_PADRAO: u32 = 6;

pub const DIFICULDADE_FUGA_PADRAO: u32 = 12;

/// A CA de um NPC cuja ficha não diz a sua.
pub const CA_NPC_PADRAO: u32 = 10;

/// As faces do dado de dano de um NPC cuja ficha não diz as suas.
pub const DANO_NPC_FACES_PADRAO: u32 = 4;

/// O que o jogador tenta fazer na rodada.
#[derive(Debug, Clone, Copy, PartialEq, Eq, Structural)]
pub enum TipoAcaoCombate {
    Atacar,
    Fugir,
    Outro,
}

/// O que a mesa fixa para a rodada: a CA do jogador, e o nível que a tabela
/// de progressão dá ao XP do jogador somado à recompensa do NPC.
#[derive(Debug, Clone, Copy, PartialEq, Eq, Structural)]
pub struct Mesa {
    pub ca_jogador: u32,
    pub nivel_apos_vitoria: u32,
}

/// O que uma rodada produziu.
#[derive(Debug)]
pub struct ResultadoRodada {
    pub eventos: Vec<Event>,
    pub combate_encerrado: bool,
}

// ---------------------------------------------------------------------------
// Modelo da rodada
// ---------------------------------------------------------------------------

/// O estado das fichas e o que a rodada contou até um momento.
pub struct Rodada {
    pub combate: CombateView,
    pub player: PlayerView,
    pub npc: NpcView,
    pub fatos: Seq<Fato>,
    pub encerrado: bool,
}

/// A semente da rolagem seguinte.
pub open spec fn semente_seguinte(seed: u64) -> u64 {
    ((seed * 2862933555777941757 + 3037000493) % modulo_64()) as u64
}

/// O valor de 32 bits com sinal que tem os bits de `n`.
pub open spec fn com_sinal(n: int) -> int {
    if n < 0x8000_0000 {
        n
    } else {
        n - 0x1_0000_0000
    }
}

/// `n`, ou zero se é negativo.
pub open spec fn nao_negativo(n: int) -> int {
    if n < 0 {
        0
    } else {
        n
    }
}

/// O NPC pode lutar: tem pontos de vida e classe de armadura, e não está morto.
pub open spec fn combatente(n: NpcView) -> bool {
    n.hp is Some && n.classe_armadura is Some && n.status != NpcStatus::Morto
}

pub open spec fn ca_do_npc(n: NpcView) -> u32 {
    match n.classe_armadura {
        Some(ca) => ca,
        None => CA_NPC_PADRAO,
    }
}

pub open spec fn faces_do_npc(n: NpcView) -> u32 {
    match n.dano_dado_faces {
        Some(faces) => faces,
        None => DANO_NPC_FACES_PADRAO,
    }
}

pub open spec fn payload_fuga(rolagem: int, sucesso: bool) -> ObjetoView {
    vazio().insert("tipo"@, ValorView::Texto("fuga"@)).insert(
        "rolagem"@,
        ValorView::Inteiro(rolagem),
    ).insert("dificuldade"@, ValorView::Inteiro(DIFICULDADE_FUGA_PADRAO as int)).insert(
        "sucesso"@,
        ValorView::Booleano(sucesso),
    )
}

pub open spec fn payload_ataque(
    alvo: Seq<char>,
    rolagem: int,
    ca: int,
    acerto: bool,
    dano: int,
) -> ObjetoView {
    vazio().insert("tipo"@, ValorView::Texto("ataque"@)).insert(
        "alvo"@,
        ValorView::Texto(alvo),
    ).insert("rolagem"@, ValorView::Inteiro(rolagem)).insert(
        "ca_alvo"@,
        ValorView::Inteiro(ca),
    ).insert("acerto"@, ValorView::Booleano(acerto)).insert(
        "dano_aplicado"@,
        ValorView::Inteiro(dano),
    )
}

/// O evento que encerra um combate.
pub open spec fn fato_encerrado(turno: u64, npc_id: Seq<char>, motivo: Seq<char>) -> Fato {
    Fato {
        event_type: EventType::CombateEncerrado,
        source: "orquestrador"@,
        turn: turno,
        payload: vazio().insert("npc_id"@, ValorView::Texto(npc_id)).insert(
            "motivo"@,
            ValorView::Texto(motivo),
        ),
    }
}

/// O evento de uma mudança de estado contada pelo orquestrador.
pub open spec fn fato_mudanca(turno: u64, payload: ObjetoView) -> Fato {
    Fato {
        event_type: EventType::MudancaEstado,
        source: "orquestrador"@,
        turn: turno,
        payload,
    }
}

/// O inventário tem um item com esse nome.
pub open spec fn tem_item(inventario: Seq<ItemView>, nome: Seq<char>) -> bool {
    exists|i: int| 0 <= i < inventario.len() && (#[trigger] inventario[i]).nome == nome
}

/// O inventário depois de recolher o saque: um de cada item que ainda não
/// estava lá, na ordem do saque.
pub open spec fn inventario_com_saque(inventario: Seq<ItemView>, saque: Seq<Seq<char>>) -> Seq<
    ItemView,
>
    decreases saque.len(),
{
    if saque.len() == 0 {
        inventario
    } else {
        let antes = inventario_com_saque(inventario, saque.drop_last());
        if tem_item(antes, saque.last()) {
            antes
        } else {
            antes.push(ItemView { nome: saque.last(), quantidade: 1, categoria: Seq::empty() })
        }
    }
}

/// Um evento para cada item recolhido.
pub open spec fn fatos_do_saque(
    inventario: Seq<ItemView>,
    saque: Seq<Seq<char>>,
    turno: u64,
) -> Seq<Fato>
    decreases saque.len(),
{
    if saque.len() == 0 {
        Seq::empty()
    } else {
        let antes = fatos_do_saque(inventario, saque.drop_last(), turno);
        if tem_item(inventario_com_saque(inventario, saque.drop_last()), saque.last()) {
            antes
        } else {
            antes.push(
                fato_mudanca(
                    turno,
                    vazio().insert("campo"@, ValorView::Texto("player.inventario"@)).insert(
                        "operacao"@,
                        ValorView::Texto("adicionar"@),
                    ).insert("valor"@, ValorView::Texto(saque.last())),
                ),
            )
        }
    }
}

/// O jogador depois da recompensa: o XP do NPC, o nível correspondente, e o
/// saque.
pub open spec fn recompensado(p: PlayerView, n: NpcView, mesa: Mesa) -> PlayerView {
    let com_xp = match n.xp_recompensa {
        Some(xp) => PlayerView { xp: (p.xp + xp) as u32, nivel: mesa.nivel_apos_vitoria, ..p },
        None => p,
    };
    PlayerView { inventario: inventario_com_saque(p.inventario, n.loot), ..com_xp }
}

/// O que o XP da recompensa conta: quanto entrou e, se o nível subiu, isso.
pub open spec fn fatos_do_xp(p: PlayerView, n: NpcView, mesa: Mesa, turno: u64) -> Seq<Fato> {
    match n.xp_recompensa {
        None => Seq::empty(),
        Some(xp) => {
            let ganho = seq![
                fato_mudanca(
                    turno,
                    vazio().insert("campo"@, ValorView::Texto("player.xp"@)).insert(
                        "operacao"@,
                        ValorView::Texto("somar"@),
                    ).insert("valor"@, ValorView::Inteiro(xp as int)).insert(
                        "atual"@,
                        ValorView::Inteiro(p.xp + xp),
                    ),
                ),
            ];
            if mesa.nivel_apos_vitoria > p.nivel {
                ganho.push(
                    Fato {
                        event_type: EventType::SubiuDeNivel,
                        source: "orquestrador"@,
                        turn: turno,
                        payload: vazio().insert(
                            "nivel_anterior"@,
                            ValorView::Inteiro(p.nivel as int),
                        ).insert("nivel_novo"@, ValorView::Inteiro(mesa.nivel_apos_vitoria as int)),
                    },
                )
            } else {
                ganho
            }
        },
    }
}

/// O que a recompensa conta.
pub open spec fn fatos_da_recompensa(p: PlayerView, n: NpcView, mesa: Mesa, turno: u64) -> Seq<
    Fato,
> {
    fatos_do_xp(p, n, mesa, turno) + fatos_do_saque(p.inventario, n.loot, turno)
}

/// O NPC acerta o jogador na reação cuja semente anterior é `seed`.
pub open spec fn npc_acerta(mesa: Mesa, seed: u64) -> bool {
    face(20, semente_seguinte(seed)) >= mesa.ca_jogador
}

/// O dano da reação do NPC.
pub open spec fn dano_do_npc(n: NpcView, mesa: Mesa, seed: u64) -> int {
    if npc_acerta(mesa, seed) {
        com_sinal(face(faces_do_npc(n), semente_seguinte(semente_seguinte(seed))))
    } else {
        0
    }
}

/// Os pontos de vida do jogador depois da reação.
pub open spec fn vida_apos_reacao(p: PlayerView, n: NpcView, mesa: Mesa, seed: u64) -> int {
    if npc_acerta(mesa, seed) {
        nao_negativo(p.hp.atual - dano_do_npc(n, mesa, seed))
    } else {
        p.hp.atual as int
    }
}

/// A reação do NPC: ataca o jogador, que morre se chega a zero; senão a
/// rodada avança.
pub open spec fn reacao(r: Rodada, mesa: Mesa, turno: u64, seed: u64) -> Rodada {
    let vida = vida_apos_reacao(r.player, r.npc, mesa, seed);
    let player = PlayerView { hp: Hp { atual: vida as i32, ..r.player.hp }, ..r.player };
    let contados = r.fatos.push(
        Fato {
            event_type: EventType::AtaqueResolvido,
            source: r.npc.id,
            turn: turno,
            payload: payload_ataque(
                r.player.id,
                face(20, semente_seguinte(seed)),
                mesa.ca_jogador as int,
                npc_acerta(mesa, seed),
                dano_do_npc(r.npc, mesa, seed),
            ),
        },
    );
    if vida == 0 {
        Rodada {
            combate: CombateView { ativo: false, ..r.combate },
            player,
            npc: r.npc,
            fatos: contados.push(
                Fato {
                    event_type: EventType::JogadorMorreu,
                    source: "orquestrador"@,
                    turn: turno,
                    payload: vazio().insert(
                        "causa"@,
                        ValorView::Texto("combate contra "@ + r.npc.nome),
                    ),
                },
            ).push(fato_encerrado(turno, r.npc.id, "jogador_morreu"@)),
            encerrado: true,
        }
    } else {
        Rodada {
            combate: CombateView { rodada: (r.combate.rodada + 1) as u32, ..r.combate },
            player,
            npc: r.npc,
            fatos: contados,
            encerrado: false,
        }
    }
}

/// O jogador foge na rodada cuja semente é `seed`.
pub open spec fn foge(seed: u64) -> bool {
    face(20, semente_seguinte(seed)) >= DIFICULDADE_FUGA_PADRAO
}

/// A tentativa de fuga: se dá certo o combate acaba ali, senão o NPC reage.
pub open spec fn fuga(r: Rodada, mesa: Mesa, turno: u64, seed: u64) -> Rodada {
    let contados = r.fatos.push(
        Fato {
            event_type: EventType::AtaqueResolvido,
            source: r.player.id,
            turn: turno,
            payload: payload_fuga(face(20, semente_seguinte(seed)), foge(seed)),
        },
    );
    if foge(seed) {
        Rodada {
            combate: CombateView { ativo: false, ..r.combate },
            fatos: contados.push(fato_encerrado(turno, r.npc.id, "jogador_fugiu"@)),
            encerrado: true,
            ..r
        }
    } else {
        reacao(Rodada { fatos: contados, ..r }, mesa, turno, semente_seguinte(seed))
    }
}

/// O jogador acerta o NPC na rodada cuja semente é `seed`.
pub open spec fn jogador_acerta(n: NpcView, seed: u64) -> bool {
    face(20, semente_seguinte(seed)) >= ca_do_npc(n)
}

/// O dano do ataque do jogador.
pub open spec fn dano_do_jogador(n: NpcView, seed: u64) -> int {
    if jogador_acerta(n, seed) {
        face(DANO_JOGADOR_FACES_PADRAO, semente_seguinte(semente_seguinte(seed)))
    } else {
        0
    }
}

/// Os pontos de vida do NPC depois do ataque.
pub open spec fn hp_apos_ataque(n: NpcView, seed: u64) -> Option<Hp> {
    match n.hp {
        Some(hp) => if jogador_acerta(n, seed) {
            Some(Hp { atual: nao_negativo(hp.atual - dano_do_jogador(n, seed)) as i32, ..hp })
        } else {
            Some(hp)
        },
        None => None,
    }
}

/// O ataque deixa o NPC sem pontos de vida.
pub open spec fn derrota_npc(n: NpcView, seed: u64) -> bool {
    match hp_apos_ataque(n, seed) {
        Some(hp) => hp.atual == 0,
        None => false,
    }
}

/// A semente depois das rolagens do ataque: uma, ou duas se acertou.
pub open spec fn semente_apos_ataque(n: NpcView, seed: u64) -> u64 {
    if jogador_acerta(n, seed) {
        semente_seguinte(semente_seguinte(seed))
    } else {
        semente_seguinte(seed)
    }
}

/// O ataque do jogador: se o NPC cai, o jogador recebe a recompensa e o
/// combate acaba; senão o NPC reage.
pub open spec fn ataque(r: Rodada, mesa: Mesa, turno: u64, seed: u64) -> Rodada {
    let contados = r.fatos.push(
        Fato {
            event_type: EventType::AtaqueResolvido,
            source: r.player.id,
            turn: turno,
            payload: payload_ataque(
                r.npc.id,
                face(20, semente_seguinte(seed)),
                ca_do_npc(r.npc) as int,
                jogador_acerta(r.npc, seed),
                dano_do_jogador(r.npc, seed),
            ),
        },
    );
    let ferido = NpcView { hp: hp_apos_ataque(r.npc, seed), ..r.npc };
    if derrota_npc(r.npc, seed) {
        Rodada {
            combate: CombateView { ativo: false, ..r.combate },
            player: recompensado(r.player, r.npc, mesa),
            npc: NpcView { status: NpcStatus::Morto, ..ferido },
            fatos: (contados + fatos_da_recompensa(r.player, r.npc, mesa, turno)).push(
                fato_encerrado(turno, r.npc.id, "inimigo_derrotado"@),
            ),
            encerrado: true,
        }
    } else {
        reacao(
            Rodada { npc: ferido, fatos: contados, ..r },
            mesa,
            turno,
            semente_apos_ataque(r.npc, seed),
        )
    }
}

/// A rodada inteira, a partir das fichas.
pub open spec fn rodada(
    c: CombateView,
    p: PlayerView,
    n: NpcView,
    acao: TipoAcaoCombate,
    mesa: Mesa,
    turno: u64,
    seed: u64,
) -> Rodada {
    let inicio = Rodada {
        combate: c,
        player: p,
        npc: n,
        fatos: Seq::empty(),
        encerrado: false,
    };
    match acao {
        TipoAcaoCombate::Fugir => fuga(inicio, mesa, turno, seed),
        TipoAcaoCombate::Atacar => ataque(inicio, mesa, turno, seed),
        TipoAcaoCombate::Outro => reacao(inicio, mesa, turno, seed),
    }
}

/// A reação cabe nos números das fichas: o dado de dano tem faces, os pontos
/// de vida e o contador de rodadas não estouram.
pub open spec fn reacao_definida(
    c: CombateView,
    p: PlayerView,
    n: NpcView,
    mesa: Mesa,
    seed: u64,
) -> bool {
    &&& npc_acerta(mesa, seed) ==> faces_do_npc(n) > 0 && i32::MIN <= p.hp.atual - dano_do_npc(
        n,
        mesa,
        seed,
    ) <= i32::MAX
    &&& vida_apos_reacao(p, n, mesa, seed) != 0 ==> c.rodada < u32::MAX
}

/// A rodada cabe nos números das fichas.
pub open spec fn rodada_definida(
    c: CombateView,
    p: PlayerView,
    n: NpcView,
    acao: TipoAcaoCombate,
    mesa: Mesa,
    seed: u64,
) -> bool {
    match acao {
        TipoAcaoCombate::Fugir => foge(seed) || reacao_definida(
            c,
            p,
            n,
            mesa,
            semente_seguinte(seed),
        ),
        TipoAcaoCombate::Atacar => {
            &&& jogador_acerta(n, seed) ==> (n.hp matches Some(hp) ==> i32::MIN <= hp.atual
                - dano_do_jogador(n, seed))
            &&& if derrota_npc(n, seed) {
                n.xp_recompensa matches Some(xp) ==> p.xp + xp <= u32::MAX
            } else {
                reacao_definida(c, p, n, mesa, semente_apos_ataque(n, seed))
            }
        },
        TipoAcaoCombate::Outro => reacao_definida(c, p, n, mesa, seed),
    }
}

// ---------------------------------------------------------------------------
// Leis da rodada
// ---------------------------------------------------------------------------

/// Ninguém fica com pontos de vida negativos.
pub proof fn lei_vida_nunca_negativa(
    c: CombateView,
    p: PlayerView,
    n: NpcView,
    acao: TipoAcaoCombate,
    mesa: Mesa,
    turno: u64,
    seed: u64,
)
    requires
        rodada_definida(c, p, n, acao, mesa, seed),
        p.hp.atual >= 0,
        n.hp matches Some(hp) ==> hp.atual >= 0,
    ensures
        ({
            let r = rodada(c, p, n, acao, mesa, turno, seed);
            &&& r.player.hp.atual >= 0
            &&& r.npc.hp matches Some(hp) ==> hp.atual >= 0
        }),
{
    crate::skills::lei_face_existe(
        DANO_JOGADOR_FACES_PADRAO,
        semente_seguinte(semente_seguinte(seed)),
    );
}

/// Com fichas em ordem (dado de dano com faces que cabem em 31 bits, pontos de
/// vida não negativos, XP e rodadas longe do teto) toda rodada cabe nos
/// números, seja qual for a ação e a semente.
pub proof fn lei_fichas_em_ordem_definem_a_rodada(
    c: CombateView,
    p: PlayerView,
    n: NpcView,
    acao: TipoAcaoCombate,
    mesa: Mesa,
    seed: u64,
)
    requires
        1 <= faces_do_npc(n) <= i32::MAX,
        p.hp.atual >= 0,
        n.hp matches Some(hp) ==> hp.atual >= 0,
        n.xp_recompensa matches Some(xp) ==> p.xp + xp <= u32::MAX,
        c.rodada < u32::MAX,
    ensures
        rodada_definida(c, p, n, acao, mesa, seed),
{
    assert forall|s: u64| 1 <= #[trigger] face(faces_do_npc(n), s) <= i32::MAX by {
        crate::skills::lei_face_existe(faces_do_npc(n), s);
    }
    crate::skills::lei_face_existe(
        DANO_JOGADOR_FACES_PADRAO,
        semente_seguinte(semente_seguinte(seed)),
    );
}

/// Uma fuga que dá certo encerra o combate e não toca em nenhuma das fichas.
pub proof fn lei_fuga_sem_dano(
    c: CombateView,
    p: PlayerView,
    n: NpcView,
    mesa: Mesa,
    turno: u64,
    seed: u64,
)
    requires
        foge(seed),
    ensures
        ({
            let r = rodada(c, p, n, TipoAcaoCombate::Fugir, mesa, turno, seed);
            &&& r.encerrado
            &&& !r.combate.ativo
            &&& r.player == p
            &&& r.npc == n
            &&& r.fatos.len() == 2
        }),
{
}

proof fn lema_saque(inventario: Seq<ItemView>, saque: Seq<Seq<char>>)
    ensures
        inventario.is_prefix_of(inventario_com_saque(inventario, saque)),
        forall|i: int|
            0 <= i < saque.len() ==> tem_item(
                inventario_com_saque(inventario, saque),
                #[trigger] saque[i],
            ),
        forall|i: int|
            inventario.len() <= i < inventario_com_saque(inventario, saque).len() ==> (
            #[trigger] inventario_com_saque(inventario, saque)[i]).quantidade == 1,
    decreases saque.len(),
{
    if saque.len() > 0 {
        let resto = saque.drop_last();
        lema_saque(inventario, resto);
        let antes = inventario_com_saque(inventario, resto);
        let depois = inventario_com_saque(inventario, saque);
        assert forall|i: int| 0 <= i < saque.len() implies tem_item(depois, #[trigger] saque[i]) by {
            if i < resto.len() {
                assert(saque[i] == resto[i]);
                assert(tem_item(antes, resto[i]));
                let j = choose|j: int| 0 <= j < antes.len() && (#[trigger] antes[j]).nome == saque[i];
                assert(depois[j].nome == saque[i]);
            } else if !tem_item(antes, saque.last()) {
                assert(depois[antes.len() as int].nome == saque[i]);
            }
        }
        assert(inventario.is_prefix_of(depois));
    }
}

/// Derrotar o NPC encerra o combate, deixa o NPC morto com zero pontos de
/// vida, e dá ao jogador o XP do NPC e todo o saque, sem perder nada do que
/// ele já tinha.
pub proof fn lei_vitoria(
    c: CombateView,
    p: PlayerView,
    n: NpcView,
    mesa: Mesa,
    turno: u64,
    seed: u64,
)
    requires
        derrota_npc(n, seed),
        rodada_definida(c, p, n, TipoAcaoCombate::Atacar, mesa, seed),
    ensures
        ({
            let r = rodada(c, p, n, TipoAcaoCombate::Atacar, mesa, turno, seed);
            &&& r.encerrado
            &&& !r.combate.ativo
            &&& r.npc.status == NpcStatus::Morto
            &&& r.npc.hp matches Some(hp) && hp.atual == 0
            &&& r.player.hp == p.hp
            &&& match n.xp_recompensa {
                Some(xp) => r.player.xp == p.xp + xp && r.player.nivel == mesa.nivel_apos_vitoria,
                None => r.player.xp == p.xp && r.player.nivel == p.nivel,
            }
            &&& p.inventario.is_prefix_of(r.player.inventario)
            &&& forall|i: int|
                0 <= i < n.loot.len() ==> tem_item(r.player.inventario, #[trigger] n.loot[i])
        }),
{
    lema_saque(p.inventario, n.loot);
}

/// Uma rodada encerra o combate exatamente quando o último evento é o de
/// encerramento; encerrado, o combate fica inativo e a rodada não avança;
/// senão ele continua como estava, uma rodada adiante.
pub proof fn lei_encerramento(
    c: CombateView,
    p: PlayerView,
    n: NpcView,
    acao: TipoAcaoCombate,
    mesa: Mesa,
    turno: u64,
    seed: u64,
)
    requires
        rodada_definida(c, p, n, acao, mesa, seed),
    ensures
        ({
            let r = rodada(c, p, n, acao, mesa, turno, seed);
            &&& r.fatos.len() > 0
            &&& r.encerrado <==> r.fatos.last().event_type == EventType::CombateEncerrado
            &&& r.encerrado ==> !r.combate.ativo && r.combate.rodada == c.rodada
            &&& !r.encerrado ==> r.combate.ativo == c.ativo && r.combate.rodada == c.rodada + 1
            &&& r.combate.player_id == c.player_id
            &&& r.combate.npc_id == c.npc_id
            &&& forall|i: int| 0 <= i < r.fatos.len() ==> (#[trigger] r.fatos[i]).turn == turno
        }),
{
    lema_fatos_da_recompensa(p, n, mesa, turno);
}

proof fn lema_fatos_da_recompensa(p: PlayerView, n: NpcView, mesa: Mesa, turno: u64)
    ensures
        forall|i: int|
            0 <= i < fatos_da_recompensa(p, n, mesa, turno).len() ==> (
            #[trigger] fatos_da_recompensa(p, n, mesa, turno)[i]).turn == turno,
{
    lema_fatos_do_saque(p.inventario, n.loot, turno);
}

proof fn lema_fatos_do_saque(inventario: Seq<ItemView>, saque: Seq<Seq<char>>, turno: u64)
    ensures
        forall|i: int|
            0 <= i < fatos_do_saque(inventario, saque, turno).len() ==> (#[trigger] fatos_do_saque(
                inventario,
                saque,
                turno,
            )[i]).turn == turno,
    decreases saque.len(),
{
    if saque.len() > 0 {
        lema_fatos_do_saque(inventario, saque.drop_last(), turno);
    }
}

/// O jogador que chega a zero pontos de vida na rodada morre nela: o penúltimo
/// evento conta a morte e o último encerra o combate. A exceção é a rodada que
/// o jogador já começou com zero e encerrou fugindo ou vencendo.
pub proof fn lei_morte_do_jogador(
    c: CombateView,
    p: PlayerView,
    n: NpcView,
    acao: TipoAcaoCombate,
    mesa: Mesa,
    turno: u64,
    seed: u64,
)
    requires
        rodada_definida(c, p, n, acao, mesa, seed),
        rodada(c, p, n, acao, mesa, turno, seed).player.hp.atual == 0,
        p.hp.atual != 0,
    ensures
        ({
            let r = rodada(c, p, n, acao, mesa, turno, seed);
            &&& r.encerrado
            &&& r.fatos.len() >= 2
            &&& r.fatos[r.fatos.len() - 2].event_type == EventType::JogadorMorreu
            &&& r.fatos.last() == fato_encerrado(turno, n.id, "jogador_morreu"@)
        }),
{
}

/// Uma rodada só muda, na ficha do jogador, os pontos de vida atuais, o XP, o
/// nível e o inventário; na do NPC, os pontos de vida atuais e a situação.
pub proof fn lei_o_que_a_rodada_nao_muda(
    c: CombateView,
    p: PlayerView,
    n: NpcView,
    acao: TipoAcaoCombate,
    mesa: Mesa,
    turno: u64,
    seed: u64,
)
    ensures
        ({
            let r = rodada(c, p, n, acao, mesa, turno, seed);
            &&& r.player == (PlayerView {
                hp: Hp { atual: r.player.hp.atual, maximo: p.hp.maximo },
                xp: r.player.xp,
                nivel: r.player.nivel,
                inventario: r.player.inventario,
                ..p
            })
            &&& r.npc == (NpcView { hp: r.npc.hp, status: r.npc.status, ..n })
            &&& r.npc.hp is Some <==> n.hp is Some
            &&& n.hp matches Some(hp) ==> r.npc.hp->0.maximo == hp.maximo
        }),
{
}

// ---------------------------------------------------------------------------
// Leis da rodada, sobre as fichas e os eventos
// ---------------------------------------------------------------------------

/// O evento conta este ataque: quem atacou quem, a rolagem contra a CA, e o
/// dano. O ataque acerta quando a rolagem alcança a CA.
pub open spec fn conta_ataque(
    f: Fato,
    turno: u64,
    atacante: Seq<char>,
    alvo: Seq<char>,
    rolagem: int,
    ca: int,
    dano: int,
) -> bool {
    &&& f.event_type == EventType::AtaqueResolvido
    &&& f.source == atacante
    &&& f.turn == turno
    &&& f.payload.dom() == set![
        "tipo"@,
        "alvo"@,
        "rolagem"@,
        "ca_alvo"@,
        "acerto"@,
        "dano_aplicado"@,
    ]
    &&& f.payload["tipo"@] == ValorView::Texto("ataque"@)
    &&& f.payload["alvo"@] == ValorView::Texto(alvo)
    &&& f.payload["rolagem"@] == ValorView::Inteiro(rolagem)
    &&& f.payload["ca_alvo"@] == ValorView::Inteiro(ca)
    &&& f.payload["acerto"@] == ValorView::Booleano(rolagem >= ca)
    &&& f.payload["dano_aplicado"@] == ValorView::Inteiro(dano)
}

/// O evento conta esta tentativa de fuga, que dá certo com doze ou mais.
pub open spec fn conta_fuga(f: Fato, turno: u64, jogador: Seq<char>, rolagem: int) -> bool {
    &&& f.event_type == EventType::AtaqueResolvido
    &&& f.source == jogador
    &&& f.turn == turno
    &&& f.payload.dom() == set!["tipo"@, "rolagem"@, "dificuldade"@, "sucesso"@]
    &&& f.payload["tipo"@] == ValorView::Texto("fuga"@)
    &&& f.payload["rolagem"@] == ValorView::Inteiro(rolagem)
    &&& f.payload["dificuldade"@] == ValorView::Inteiro(12)
    &&& f.payload["sucesso"@] == ValorView::Booleano(rolagem >= 12)
}

/// O evento encerra o combate com este NPC, por este motivo.
pub open spec fn conta_encerramento(
    f: Fato,
    turno: u64,
    npc_id: Seq<char>,
    motivo: Seq<char>,
) -> bool {
    &&& f.event_type == EventType::CombateEncerrado
    &&& f.source == "orquestrador"@
    &&& f.turn == turno
    &&& f.payload.dom() == set!["npc_id"@, "motivo"@]
    &&& f.payload["npc_id"@] == ValorView::Texto(npc_id)
    &&& f.payload["motivo"@] == ValorView::Texto(motivo)
}

/// O evento conta que o jogador morreu lutando contra `nome`.
pub open spec fn conta_morte(f: Fato, turno: u64, nome: Seq<char>) -> bool {
    &&& f.event_type == EventType::JogadorMorreu
    &&& f.source == "orquestrador"@
    &&& f.turn == turno
    &&& f.payload.dom() == set!["causa"@]
    &&& f.payload["causa"@] == ValorView::Texto("combate contra "@ + nome)
}

/// O maior de zero e `n`.
pub open spec fn pelo_menos_zero(n: int) -> int {
    if n >= 0 {
        n
    } else {
        0
    }
}

proof fn lema_campos_do_ataque(f: Fato, alvo: Seq<char>, rolagem: int, ca: int, dano: int)
    requires
        f.event_type == EventType::AtaqueResolvido,
        f.payload == payload_ataque(alvo, rolagem, ca, rolagem >= ca, dano),
    ensures
        conta_ataque(f, f.turn, f.source, alvo, rolagem, ca, dano),
{
    reveal_strlit("tipo");
    reveal_strlit("alvo");
    reveal_strlit("rolagem");
    reveal_strlit("ca_alvo");
    reveal_strlit("acerto");
    reveal_strlit("dano_aplicado");
    assert("tipo"@.len() == 4 && "alvo"@.len() == 4 && "tipo"@[0] != "alvo"@[0]);
    assert("rolagem"@.len() == 7 && "ca_alvo"@.len() == 7 && "rolagem"@[0] != "ca_alvo"@[0]);
    assert("acerto"@.len() == 6 && "dano_aplicado"@.len() == 13);
    assert(f.payload.dom() =~= set![
        "tipo"@,
        "alvo"@,
        "rolagem"@,
        "ca_alvo"@,
        "acerto"@,
        "dano_aplicado"@,
    ]);
}

proof fn lema_campos_da_fuga(f: Fato, rolagem: int)
    requires
        f.event_type == EventType::AtaqueResolvido,
        f.payload == payload_fuga(rolagem, rolagem >= 12),
    ensures
        conta_fuga(f, f.turn, f.source, rolagem),
{
    reveal_strlit("tipo");
    reveal_strlit("rolagem");
    reveal_strlit("dificuldade");
    reveal_strlit("sucesso");
    assert("rolagem"@.len() == 7 && "sucesso"@.len() == 7 && "rolagem"@[0] != "sucesso"@[0]);
    assert("tipo"@.len() == 4 && "dificuldade"@.len() == 11);
    assert(f.payload.dom() =~= set!["tipo"@, "rolagem"@, "dificuldade"@, "sucesso"@]);
}

proof fn lema_campos_do_encerramento(turno: u64, npc_id: Seq<char>, motivo: Seq<char>)
    ensures
        conta_encerramento(fato_encerrado(turno, npc_id, motivo), turno, npc_id, motivo),
{
    reveal_strlit("npc_id");
    reveal_strlit("motivo");
    assert("npc_id"@[0] == 'n' && "motivo"@[0] == 'm');
    assert(fato_encerrado(turno, npc_id, motivo).payload.dom() =~= set!["npc_id"@, "motivo"@]);
}

/// Cada rolagem da rodada usa a semente que o gerador dá depois da anterior, e
/// um dano de 32 bits é lido com sinal.
pub proof fn lei_sementes_da_rodada(seed: u64, n: int)
    requires
        0 <= n <= u32::MAX,
    ensures
        semente_seguinte(seed) == (seed * 2862933555777941757 + 3037000493)
            % 0x1_0000_0000_0000_0000,
        i32::MIN <= com_sinal(n) <= i32::MAX,
        com_sinal(n) == n || com_sinal(n) == n - 0x1_0000_0000,
{
}

/// O ataque do jogador, pelo evento que o conta e pela ficha que ele muda: o
/// primeiro evento da rodada é o ataque; se a rolagem alcança a CA do NPC (dez,
/// se a ficha não diz a sua), o golpe tira de um a seis pontos de vida, nunca
/// abaixo de zero; se não alcança, nada muda. Um golpe certeiro sempre custa
/// alguma coisa a quem tem pontos de vida.
pub proof fn lei_golpe_do_jogador(
    c: CombateView,
    p: PlayerView,
    n: NpcView,
    mesa: Mesa,
    turno: u64,
    seed: u64,
)
    requires
        rodada_definida(c, p, n, TipoAcaoCombate::Atacar, mesa, seed),
    ensures
        ({
            let r = rodada(c, p, n, TipoAcaoCombate::Atacar, mesa, turno, seed);
            let f = r.fatos[0];
            let ca: int = match n.classe_armadura {
                Some(ca) => ca as int,
                None => 10,
            };
            let rolagem = face(20, semente_seguinte(seed));
            let dano = f.payload["dano_aplicado"@]->Inteiro_0;
            &&& r.fatos.len() >= 2
            &&& conta_ataque(f, turno, p.id, n.id, rolagem, ca, dano)
            &&& 1 <= rolagem <= 20
            &&& rolagem < ca ==> dano == 0
            &&& rolagem >= ca ==> 1 <= dano <= 6 && dano == face(
                6,
                semente_seguinte(semente_seguinte(seed)),
            )
            &&& match n.hp {
                None => r.npc.hp is None,
                Some(antes) => r.npc.hp matches Some(depois) && {
                    &&& depois.maximo == antes.maximo
                    &&& rolagem >= ca ==> depois.atual == pelo_menos_zero(antes.atual - dano)
                    &&& rolagem < ca ==> depois.atual == antes.atual
                    &&& rolagem >= ca && antes.atual > 0 ==> depois.atual < antes.atual
                },
            }
        }),
{
    let r = rodada(c, p, n, TipoAcaoCombate::Atacar, mesa, turno, seed);
    let rolagem = face(20, semente_seguinte(seed));
    crate::skills::lei_face_existe(20, semente_seguinte(seed));
    crate::skills::lei_face_existe(6, semente_seguinte(semente_seguinte(seed)));
    assert(r.fatos[0].payload == payload_ataque(
        n.id,
        rolagem,
        ca_do_npc(n) as int,
        rolagem >= ca_do_npc(n),
        dano_do_jogador(n, seed),
    ));
    lema_campos_do_ataque(
        r.fatos[0],
        n.id,
        rolagem,
        ca_do_npc(n) as int,
        dano_do_jogador(n, seed),
    );
}

/// O NPC fica sem pontos de vida depois da rodada.
pub open spec fn caiu(n: NpcView) -> bool {
    n.hp matches Some(hp) && hp.atual == 0
}

/// A reação do NPC, pelo evento que a conta e pela ficha do jogador. O NPC reage
/// sempre que o jogador não fugiu e não o derrubou, e só então; o ataque dele vem
/// logo depois da ação do jogador. Se a rolagem alcança a CA do jogador, o golpe
/// tira o dano do evento, nunca abaixo de zero; senão nada muda. O jogador que
/// chega a zero morre e o combate acaba; senão a rodada avança.
pub proof fn lei_golpe_do_npc(
    c: CombateView,
    p: PlayerView,
    n: NpcView,
    acao: TipoAcaoCombate,
    mesa: Mesa,
    turno: u64,
    seed: u64,
)
    requires
        rodada_definida(c, p, n, acao, mesa, seed),
    ensures
        ({
            let r = rodada(c, p, n, acao, mesa, turno, seed);
            let primeira = face(20, semente_seguinte(seed));
            let ca_npc: int = match n.classe_armadura {
                Some(ca) => ca as int,
                None => 10,
            };
            let faces: u32 = match n.dano_dado_faces {
                Some(faces) => faces,
                None => 4,
            };
            let k: int = if acao == TipoAcaoCombate::Outro {
                0
            } else {
                1
            };
            let semente = match acao {
                TipoAcaoCombate::Outro => seed,
                TipoAcaoCombate::Fugir => semente_seguinte(seed),
                TipoAcaoCombate::Atacar => if primeira >= ca_npc {
                    semente_seguinte(semente_seguinte(seed))
                } else {
                    semente_seguinte(seed)
                },
            };
            let reage = match acao {
                TipoAcaoCombate::Outro => true,
                TipoAcaoCombate::Fugir => primeira < 12,
                TipoAcaoCombate::Atacar => !caiu(r.npc),
            };
            let f = r.fatos[k];
            let rolagem = face(20, semente_seguinte(semente));
            let dano = f.payload["dano_aplicado"@]->Inteiro_0;
            &&& !reage ==> r.player.hp == p.hp && r.encerrado
            &&& reage ==> {
                &&& r.fatos.len() > k
                &&& conta_ataque(f, turno, n.id, p.id, rolagem, mesa.ca_jogador as int, dano)
                &&& 1 <= rolagem <= 20
                &&& rolagem < mesa.ca_jogador ==> dano == 0 && r.player == p
                &&& rolagem >= mesa.ca_jogador ==> {
                    &&& dano == com_sinal(face(faces, semente_seguinte(semente_seguinte(semente))))
                    &&& faces <= i32::MAX ==> 1 <= dano <= faces
                    &&& r.player.hp.atual == pelo_menos_zero(p.hp.atual - dano)
                    &&& r.player == (PlayerView {
                        hp: Hp { atual: r.player.hp.atual, maximo: p.hp.maximo },
                        ..p
                    })
                    &&& faces <= i32::MAX && p.hp.atual > 0 ==> r.player.hp.atual < p.hp.atual
                }
                &&& r.player.hp.atual == 0 ==> {
                    &&& r.encerrado
                    &&& r.fatos.len() == k + 3
                    &&& conta_morte(r.fatos[k + 1], turno, n.nome)
                    &&& conta_encerramento(r.fatos[k + 2], turno, n.id, "jogador_morreu"@)
                    &&& r.combate == (CombateView { ativo: false, ..c })
                }
                &&& r.player.hp.atual != 0 ==> {
                    &&& !r.encerrado
                    &&& r.fatos.len() == k + 1
                    &&& r.combate.rodada == c.rodada + 1
                    &&& r.combate == (CombateView { rodada: r.combate.rodada, ..c })
                }
            }
        }),
{
    let r = rodada(c, p, n, acao, mesa, turno, seed);
    let k: int = if acao == TipoAcaoCombate::Outro {
        0
    } else {
        1
    };
    let semente = match acao {
        TipoAcaoCombate::Outro => seed,
        TipoAcaoCombate::Fugir => semente_seguinte(seed),
        TipoAcaoCombate::Atacar => semente_apos_ataque(n, seed),
    };
    let rolagem = face(20, semente_seguinte(semente));
    crate::skills::lei_face_existe(20, semente_seguinte(semente));
    if faces_do_npc(n) > 0 {
        crate::skills::lei_face_existe(
            faces_do_npc(n),
            semente_seguinte(semente_seguinte(semente)),
        );
    }
    let reage = match acao {
        TipoAcaoCombate::Outro => true,
        TipoAcaoCombate::Fugir => !foge(seed),
        TipoAcaoCombate::Atacar => !derrota_npc(n, seed),
    };
    lema_campos_do_encerramento(turno, n.id, "jogador_morreu"@);
    if reage {
        assert(r.fatos[k].payload == payload_ataque(
            p.id,
            rolagem,
            mesa.ca_jogador as int,
            rolagem >= mesa.ca_jogador,
            dano_do_npc(n, mesa, semente),
        ));
        lema_campos_do_ataque(
            r.fatos[k],
            p.id,
            rolagem,
            mesa.ca_jogador as int,
            dano_do_npc(n, mesa, semente),
        );
        if r.player.hp.atual == 0 {
            assert(r.fatos[k + 1].payload.dom() =~= set!["causa"@]);
        }
    }
}

/// A tentativa de fuga, pelo evento que a conta: com doze ou mais no dado o
/// jogador escapa, o combate acaba ali e nenhuma ficha muda; com menos, a ficha
/// do NPC não muda e ele reage.
pub proof fn lei_fuga_pelo_dado(
    c: CombateView,
    p: PlayerView,
    n: NpcView,
    mesa: Mesa,
    turno: u64,
    seed: u64,
)
    requires
        rodada_definida(c, p, n, TipoAcaoCombate::Fugir, mesa, seed),
    ensures
        ({
            let r = rodada(c, p, n, TipoAcaoCombate::Fugir, mesa, turno, seed);
            let rolagem = face(20, semente_seguinte(seed));
            &&& conta_fuga(r.fatos[0], turno, p.id, rolagem)
            &&& 1 <= rolagem <= 20
            &&& r.npc == n
            &&& rolagem >= 12 ==> {
                &&& r.fatos.len() == 2
                &&& conta_encerramento(r.fatos[1], turno, n.id, "jogador_fugiu"@)
                &&& r.player == p
                &&& r.combate == (CombateView { ativo: false, ..c })
                &&& r.encerrado
            }
            &&& rolagem < 12 ==> r.fatos.len() >= 2 && r.fatos[1].event_type
                == EventType::AtaqueResolvido && r.fatos[1].source == n.id
        }),
{
    let r = rodada(c, p, n, TipoAcaoCombate::Fugir, mesa, turno, seed);
    let rolagem = face(20, semente_seguinte(seed));
    crate::skills::lei_face_existe(20, semente_seguinte(seed));
    assert(r.fatos[0].payload == payload_fuga(rolagem, rolagem >= 12));
    lema_campos_da_fuga(r.fatos[0], rolagem);
    lema_campos_do_encerramento(turno, n.id, "jogador_fugiu"@);
}

/// Só um ataque muda a ficha do NPC; e sem derrubar o NPC o jogador não ganha
/// XP, nível nem saque, e a situação do NPC não muda.
pub proof fn lei_sem_vitoria_nao_ha_recompensa(
    c: CombateView,
    p: PlayerView,
    n: NpcView,
    acao: TipoAcaoCombate,
    mesa: Mesa,
    turno: u64,
    seed: u64,
)
    requires
        rodada_definida(c, p, n, acao, mesa, seed),
    ensures
        ({
            let r = rodada(c, p, n, acao, mesa, turno, seed);
            &&& acao != TipoAcaoCombate::Atacar ==> r.npc == n
            &&& acao != TipoAcaoCombate::Atacar || !caiu(r.npc) ==> {
                &&& r.npc.status == n.status
                &&& r.player == (PlayerView {
                    hp: Hp { atual: r.player.hp.atual, maximo: p.hp.maximo },
                    ..p
                })
            }
        }),
{
}

/// O que o saque acrescenta ao inventário, item a item: cada um é de uma unidade,
/// sem categoria, de um nome do saque que o jogador não tinha; nenhum se repete,
/// vêm na ordem do saque, e ao fim o jogador tem tudo que estava no saque.
pub open spec fn recolheu(
    antes: Seq<ItemView>,
    saque: Seq<Seq<char>>,
    depois: Seq<ItemView>,
    posicoes: Seq<int>,
) -> bool {
    &&& depois.len() == antes.len() + posicoes.len()
    &&& forall|i: int| 0 <= i < antes.len() ==> #[trigger] depois[i] == antes[i]
    &&& forall|k: int|
        0 <= k < posicoes.len() ==> 0 <= #[trigger] posicoes[k] < saque.len()
            && depois[antes.len() + k] == (ItemView {
            nome: saque[posicoes[k]],
            quantidade: 1,
            categoria: Seq::empty(),
        }) && forall|i: int|
            0 <= i < antes.len() ==> (#[trigger] antes[i]).nome != saque[posicoes[k]]
    &&& forall|a: int, b: int|
        0 <= a < b < posicoes.len() ==> #[trigger] posicoes[a] < #[trigger] posicoes[b]
            && saque[posicoes[a]] != saque[posicoes[b]]
    &&& forall|j: int|
        0 <= j < saque.len() ==> exists|i: int|
            0 <= i < depois.len() && (#[trigger] depois[i]).nome == #[trigger] saque[j]
}

proof fn lema_recolhe(antes: Seq<ItemView>, saque: Seq<Seq<char>>, turno: u64) -> (posicoes: Seq<
    int,
>)
    ensures
        recolheu(antes, saque, inventario_com_saque(antes, saque), posicoes),
        fatos_do_saque(antes, saque, turno).len() == posicoes.len(),
        forall|k: int|
            0 <= k < posicoes.len() ==> #[trigger] fatos_do_saque(antes, saque, turno)[k]
                == fato_mudanca(
                turno,
                vazio().insert("campo"@, ValorView::Texto("player.inventario"@)).insert(
                    "operacao"@,
                    ValorView::Texto("adicionar"@),
                ).insert("valor"@, ValorView::Texto(saque[posicoes[k]])),
            ),
    decreases saque.len(),
{
    if saque.len() == 0 {
        Seq::empty()
    } else {
        let resto = saque.drop_last();
        let ps = lema_recolhe(antes, resto, turno);
        let meio = inventario_com_saque(antes, resto);
        let depois = inventario_com_saque(antes, saque);
        let ultimo = saque.len() - 1;
        let r = if tem_item(meio, saque.last()) {
            ps
        } else {
            ps.push(ultimo)
        };
        if !tem_item(meio, saque.last()) {
            assert forall|i: int| 0 <= i < antes.len() implies (#[trigger] antes[i]).nome
                != saque.last() by {
                assert(meio[i].nome == antes[i].nome);
            }
        }
        assert forall|k: int| 0 <= k < r.len() implies 0 <= #[trigger] r[k] < saque.len()
            && depois[antes.len() + k] == (ItemView {
            nome: saque[r[k]],
            quantidade: 1,
            categoria: Seq::empty(),
        }) && forall|i: int| 0 <= i < antes.len() ==> (#[trigger] antes[i]).nome != saque[r[k]] by {
            if k < ps.len() {
                assert(r[k] == ps[k]);
                assert(resto[ps[k]] == saque[ps[k]]);
                assert(depois[antes.len() + k] == meio[antes.len() + k]);
            }
        }
        assert forall|a: int, b: int| 0 <= a < b < r.len() implies #[trigger] r[a] < #[trigger] r[b]
            && saque[r[a]] != saque[r[b]] by {
            assert(r[a] == ps[a]);
            assert(resto[ps[a]] == saque[ps[a]]);
            if b < ps.len() {
                assert(r[b] == ps[b]);
                assert(resto[ps[b]] == saque[ps[b]]);
            } else {
                assert(meio[antes.len() + a].nome == saque[ps[a]]);
            }
        }
        assert forall|j: int| 0 <= j < saque.len() implies exists|i: int|
            0 <= i < depois.len() && (#[trigger] depois[i]).nome == #[trigger] saque[j] by {
            if j < ultimo {
                assert(resto[j] == saque[j]);
                let i = choose|i: int| 0 <= i < meio.len() && (#[trigger] meio[i]).nome == resto[j];
                assert(depois[i] == meio[i]);
            } else if tem_item(meio, saque.last()) {
                let i = choose|i: int|
                    0 <= i < meio.len() && (#[trigger] meio[i]).nome == saque.last();
                assert(depois[i] == meio[i]);
            } else {
                assert(depois[meio.len() as int].nome == saque[j]);
            }
        }
        assert forall|k: int| 0 <= k < r.len() implies #[trigger] fatos_do_saque(
            antes,
            saque,
            turno,
        )[k] == fato_mudanca(
            turno,
            vazio().insert("campo"@, ValorView::Texto("player.inventario"@)).insert(
                "operacao"@,
                ValorView::Texto("adicionar"@),
            ).insert("valor"@, ValorView::Texto(saque[r[k]])),
        ) by {
            if k < ps.len() {
                assert(r[k] == ps[k]);
                assert(fatos_do_saque(antes, saque, turno)[k] == fatos_do_saque(
                    antes,
                    resto,
                    turno,
                )[k]);
                assert(resto[ps[k]] == saque[ps[k]]);
            }
        }
        r
    }
}

/// A vitória, pela ficha: o NPC que fica sem pontos de vida num ataque morre, o
/// combate acaba, e o jogador recebe o XP (com o nível que a mesa dá a ele) e
/// recolhe o saque. Os eventos contam, na ordem, o ataque, o XP, o nível se subiu,
/// cada item recolhido, e o fim.
pub proof fn lei_vitoria_pela_ficha(
    c: CombateView,
    p: PlayerView,
    n: NpcView,
    mesa: Mesa,
    turno: u64,
    seed: u64,
) -> (posicoes: Seq<int>)
    requires
        rodada_definida(c, p, n, TipoAcaoCombate::Atacar, mesa, seed),
        caiu(rodada(c, p, n, TipoAcaoCombate::Atacar, mesa, turno, seed).npc),
    ensures
        ({
            let r = rodada(c, p, n, TipoAcaoCombate::Atacar, mesa, turno, seed);
            let subiu = n.xp_recompensa is Some && mesa.nivel_apos_vitoria > p.nivel;
            let k: int = if n.xp_recompensa is None {
                1
            } else if subiu {
                3
            } else {
                2
            };
            &&& r.npc == (NpcView { hp: r.npc.hp, status: NpcStatus::Morto, ..n })
            &&& r.encerrado
            &&& r.combate == (CombateView { ativo: false, ..c })
            &&& r.player == (PlayerView {
                xp: r.player.xp,
                nivel: r.player.nivel,
                inventario: r.player.inventario,
                ..p
            })
            &&& match n.xp_recompensa {
                Some(xp) => {
                    &&& r.player.xp == p.xp + xp
                    &&& r.player.nivel == mesa.nivel_apos_vitoria
                    &&& r.fatos[1] == (Fato {
                        event_type: EventType::MudancaEstado,
                        source: "orquestrador"@,
                        turn: turno,
                        payload: vazio().insert("campo"@, ValorView::Texto("player.xp"@)).insert(
                            "operacao"@,
                            ValorView::Texto("somar"@),
                        ).insert("valor"@, ValorView::Inteiro(xp as int)).insert(
                            "atual"@,
                            ValorView::Inteiro(p.xp + xp),
                        ),
                    })
                },
                None => r.player.xp == p.xp && r.player.nivel == p.nivel,
            }
            &&& subiu ==> r.fatos[2] == (Fato {
                event_type: EventType::SubiuDeNivel,
                source: "orquestrador"@,
                turn: turno,
                payload: vazio().insert(
                    "nivel_anterior"@,
                    ValorView::Inteiro(p.nivel as int),
                ).insert("nivel_novo"@, ValorView::Inteiro(mesa.nivel_apos_vitoria as int)),
            })
            &&& recolheu(p.inventario, n.loot, r.player.inventario, posicoes)
            &&& r.fatos.len() == k + posicoes.len() + 1
            &&& forall|i: int|
                k <= i < k + posicoes.len() ==> #[trigger] r.fatos[i] == (Fato {
                    event_type: EventType::MudancaEstado,
                    source: "orquestrador"@,
                    turn: turno,
                    payload: vazio().insert(
                        "campo"@,
                        ValorView::Texto("player.inventario"@),
                    ).insert("operacao"@, ValorView::Texto("adicionar"@)).insert(
                        "valor"@,
                        ValorView::Texto(n.loot[posicoes[i - k]]),
                    ),
                })
            &&& conta_encerramento(r.fatos.last(), turno, n.id, "inimigo_derrotado"@)
        }),
{
    let r = rodada(c, p, n, TipoAcaoCombate::Atacar, mesa, turno, seed);
    let posicoes = lema_recolhe(p.inventario, n.loot, turno);
    lema_campos_do_encerramento(turno, n.id, "inimigo_derrotado"@);
    let xps = fatos_do_xp(p, n, mesa, turno);
    let k = 1 + xps.len();
    assert forall|i: int| k <= i < k + posicoes.len() implies #[trigger] r.fatos[i] == (Fato {
        event_type: EventType::MudancaEstado,
        source: "orquestrador"@,
        turn: turno,
        payload: vazio().insert("campo"@, ValorView::Texto("player.inventario"@)).insert(
            "operacao"@,
            ValorView::Texto("adicionar"@),
        ).insert("valor"@, ValorView::Texto(n.loot[posicoes[i - k]])),
    }) by {
        assert(r.fatos[i] == fatos_do_saque(p.inventario, n.loot, turno)[i - k]);
    }
    posicoes
}

/// Pode lutar quem tem pontos de vida e classe de armadura e não está morto; os
/// combatentes de uma lista são todos esses, na ordem.
pub proof fn lei_combatentes(npcs: Seq<Npc>) -> (posicoes: Seq<int>)
    ensures
        ({
            let r = npcs.filter(|n: Npc| combatente(n@));
            &&& posicoes.len() == r.len()
            &&& forall|k: int|
                0 <= k < r.len() ==> 0 <= #[trigger] posicoes[k] < npcs.len() && r[k]
                    == npcs[posicoes[k]]
            &&& forall|a: int, b: int|
                0 <= a < b < posicoes.len() ==> #[trigger] posicoes[a] < #[trigger] posicoes[b]
            &&& forall|i: int|
                0 <= i < npcs.len() ==> (posicoes.contains(i) <==> {
                    &&& (#[trigger] npcs[i])@.hp is Some
                    &&& npcs[i]@.classe_armadura is Some
                    &&& npcs[i]@.status != NpcStatus::Morto
                })
        }),
{
    crate::texto::lei_filtro(npcs, |n: Npc| combatente(n@))
}

// ---------------------------------------------------------------------------
// Execução
// ---------------------------------------------------------------------------

/// O NPC pode entrar em combate.
pub(crate) fn pode_lutar(n: &Npc) -> (r: bool)
    ensures
        r == combatente(n@),
{
    n.hp.is_some() && n.classe_armadura.is_some() && n.status != NpcStatus::Morto
}

/// Os NPCs que podem entrar em combate, na ordem.
pub fn npcs_combatentes<'a>(npcs: &'a [Npc]) -> (r: Vec<&'a Npc>)
    ensures
        r@.map_values(|n: &Npc| *n) == npcs@.filter(|n: Npc| combatente(n@)),
{
    let mut r: Vec<&'a Npc> = Vec::new();
    let mut i: usize = 0;
    let ghost pode = |n: Npc| combatente(n@);
    proof {
        reveal(Seq::filter);
        assert(r@.map_values(|n: &Npc| *n) =~= npcs@.take(0).filter(pode));
    }
    while i < npcs.len()
        invariant
            i <= npcs@.len(),
            pode == (|n: Npc| combatente(n@)),
            r@.map_values(|n: &Npc| *n) == npcs@.take(i as int).filter(pode),
        decreases npcs@.len() - i,
    {
        let n = &npcs[i];
        let ghost antes = r@;
        if pode_lutar(n) {
            r.push(n);
            assert(r@.map_values(|n: &Npc| *n) =~= antes.map_values(|n: &Npc| *n).push(*n));
        }
        proof {
            reveal(Seq::filter);
            let agora = npcs@.take(i + 1);
            assert(agora.drop_last() =~= npcs@.take(i as int));
            assert(agora.last() == *n);
        }
        i += 1;
    }
    assert(npcs@.take(i as int) =~= npcs@);
    r
}

/// O combate que começa: primeira rodada, ativo. A iniciativa é rolada e não
/// muda nada, porque a rodada resolve os dois lados no mesmo turno.
pub fn iniciar(player_id: &str, npc_id: &str, seed: u64) -> (c: Combate)
    ensures
        c@ == (CombateView { player_id: player_id@, npc_id: npc_id@, rodada: 1, ativo: true }),
{
    let _iniciativa_jogador: u32 = skill_rolar_dado(20, seed);
    let _iniciativa_npc: u32 = skill_rolar_dado(20, seed.wrapping_add(1));
    Combate { player_id: player_id.to_string(), npc_id: npc_id.to_string(), rodada: 1, ativo: true }
}

fn proxima_semente(seed: u64) -> (r: u64)
    ensures
        r == semente_seguinte(seed),
{
    passo_congruencial(seed, 2862933555777941757, 3037000493)
}

fn rolagem_com_sinal(n: u32) -> (r: i32)
    ensures
        r == com_sinal(n as int),
{
    if n < 0x8000_0000 {
        n as i32
    } else {
        -((0xffff_ffff - n) as i32) - 1
    }
}

fn ca_na_ficha(npc: &Npc) -> (r: u32)
    ensures
        r == ca_do_npc(npc@),
{
    match npc.classe_armadura {
        Some(ca) => ca,
        None => CA_NPC_PADRAO,
    }
}

fn faces_na_ficha(npc: &Npc) -> (r: u32)
    ensures
        r == faces_do_npc(npc@),
{
    match npc.dano_dado_faces {
        Some(faces) => faces,
        None => DANO_NPC_FACES_PADRAO,
    }
}

fn reacao_cabe(combate: &Combate, player: &Player, npc: &Npc, mesa: Mesa, seed: u64) -> (r: bool)
    ensures
        r == reacao_definida(combate@, player@, npc@, mesa, seed),
{
    let s1: u64 = proxima_semente(seed);
    let mut vida: i64 = player.hp.atual as i64;
    if skill_rolar_dado(20, s1) >= mesa.ca_jogador {
        let faces: u32 = faces_na_ficha(npc);
        if faces == 0 {
            return false;
        }
        let dano: i32 = rolagem_com_sinal(skill_rolar_dado(faces, proxima_semente(s1)));
        vida = vida - dano as i64;
        if vida < i32::MIN as i64 || vida > i32::MAX as i64 {
            return false;
        }
        if vida < 0 {
            vida = 0;
        }
    }
    vida == 0 || combate.rodada < u32::MAX
}

/// Se a rodada cabe nos números das fichas, e portanto pode ser resolvida.
pub fn rodada_cabe(
    combate: &Combate,
    player: &Player,
    npc: &Npc,
    acao: TipoAcaoCombate,
    mesa: Mesa,
    seed: u64,
) -> (r: bool)
    ensures
        r == rodada_definida(combate@, player@, npc@, acao, mesa, seed),
{
    match acao {
        TipoAcaoCombate::Outro => reacao_cabe(combate, player, npc, mesa, seed),
        TipoAcaoCombate::Fugir => {
            let s1: u64 = proxima_semente(seed);
            skill_rolar_dado(20, s1) >= DIFICULDADE_FUGA_PADRAO || reacao_cabe(
                combate,
                player,
                npc,
                mesa,
                s1,
            )
        },
        TipoAcaoCombate::Atacar => {
            let s1: u64 = proxima_semente(seed);
            let mut ultima: u64 = s1;
            let ca: u32 = ca_na_ficha(npc);
            let acertou = skill_rolar_dado(20, s1) >= ca;
            let mut dano: u32 = 0;
            if acertou {
                ultima = proxima_semente(s1);
                dano = skill_rolar_dado(DANO_JOGADOR_FACES_PADRAO, ultima);
            }
            let derrotado = match npc.hp {
                Some(hp) => {
                    let resto: i64 = hp.atual as i64 - dano as i64;
                    if resto < i32::MIN as i64 {
                        return false;
                    }
                    resto == 0 || (acertou && resto < 0)
                },
                None => false,
            };
            if derrotado {
                match npc.xp_recompensa {
                    Some(xp) => xp <= u32::MAX - player.xp,
                    None => true,
                }
            } else {
                reacao_cabe(combate, player, npc, mesa, ultima)
            }
        },
    }
}

fn anotar_ataque(
    eventos: &mut Vec<Event>,
    fonte: &str,
    turno: u64,
    alvo: &str,
    rolagem: u32,
    ca: u32,
    acerto: bool,
    dano: i32,
)
    ensures
        fatos(final(eventos)@) == fatos(old(eventos)@).push(
            Fato {
                event_type: EventType::AtaqueResolvido,
                source: fonte@,
                turn: turno,
                payload: payload_ataque(alvo@, rolagem as int, ca as int, acerto, dano as int),
            },
        ),
        identificados(old(eventos)@) ==> identificados(final(eventos)@),
{
    let payload = Tabela::new().com("tipo", Valor::de_texto("ataque")).com(
        "alvo",
        Valor::de_texto(alvo),
    ).com("rolagem", Valor::Inteiro(rolagem as i128)).com(
        "ca_alvo",
        Valor::Inteiro(ca as i128),
    ).com("acerto", Valor::Booleano(acerto)).com("dano_aplicado", Valor::Inteiro(dano as i128));
    anotar(eventos, EventType::AtaqueResolvido, fonte, turno, payload);
}

fn anotar_encerramento(eventos: &mut Vec<Event>, turno: u64, npc_id: &str, motivo: &str)
    ensures
        fatos(final(eventos)@) == fatos(old(eventos)@).push(
            fato_encerrado(turno, npc_id@, motivo@),
        ),
        identificados(old(eventos)@) ==> identificados(final(eventos)@),
{
    let payload = Tabela::new().com("npc_id", Valor::de_texto(npc_id)).com(
        "motivo",
        Valor::de_texto(motivo),
    );
    anotar(eventos, EventType::CombateEncerrado, "orquestrador", turno, payload);
}

fn possui(inventario: &Vec<ItemInventario>, nome: &str) -> (r: bool)
    ensures
        r == tem_item(itens(inventario@), nome@),
{
    let ghost vs = itens(inventario@);
    let mut i: usize = 0;
    while i < inventario.len()
        invariant
            i <= inventario@.len(),
            vs == itens(inventario@),
            forall|j: int| 0 <= j < i ==> (#[trigger] vs[j]).nome != nome@,
        decreases inventario@.len() - i,
    {
        if mesmo_texto(inventario[i].nome.as_str(), nome) {
            assert(vs[i as int].nome == nome@);
            return true;
        }
        i += 1;
    }
    false
}

/// XP e saque são dados fixos do próprio NPC.
fn aplicar_recompensa(
    player: &mut Player,
    npc: &Npc,
    mesa: Mesa,
    turno: u64,
    eventos: &mut Vec<Event>,
)
    requires
        npc.xp_recompensa matches Some(xp) ==> old(player).xp + xp <= u32::MAX,
    ensures
        final(player)@ == recompensado(old(player)@, npc@, mesa),
        fatos(final(eventos)@) == fatos(old(eventos)@) + fatos_da_recompensa(
            old(player)@,
            npc@,
            mesa,
            turno,
        ),
        identificados(old(eventos)@) ==> identificados(final(eventos)@),
{
    let ghost p0 = player@;
    let ghost f0 = fatos(eventos@);
    let ghost saque = npc@.loot;
    match npc.xp_recompensa {
        Some(xp) => {
            let nivel_anterior: u32 = player.nivel;
            player.xp = player.xp + xp;
            player.nivel = mesa.nivel_apos_vitoria;
            let payload = Tabela::new().com("campo", Valor::de_texto("player.xp")).com(
                "operacao",
                Valor::de_texto("somar"),
            ).com("valor", Valor::Inteiro(xp as i128)).com(
                "atual",
                Valor::Inteiro(player.xp as i128),
            );
            anotar(eventos, EventType::MudancaEstado, "orquestrador", turno, payload);
            if player.nivel > nivel_anterior {
                let payload = Tabela::new().com(
                    "nivel_anterior",
                    Valor::Inteiro(nivel_anterior as i128),
                ).com("nivel_novo", Valor::Inteiro(player.nivel as i128));
                anotar(eventos, EventType::SubiuDeNivel, "orquestrador", turno, payload);
            }
        },
        None => {},
    }
    let ghost f1 = fatos(eventos@);
    let ghost p1 = player@;
    assert(f1 =~= f0 + fatos_do_xp(p0, npc@, mesa, turno));
    let mut i: usize = 0;
    assert(p1.inventario =~= inventario_com_saque(p0.inventario, saque.take(0)));
    assert(f1 =~= f1 + fatos_do_saque(p0.inventario, saque.take(0), turno));
    while i < npc.loot.len()
        invariant
            i <= npc.loot@.len(),
            saque == textos(npc.loot@),
            player@ == (PlayerView {
                inventario: inventario_com_saque(p0.inventario, saque.take(i as int)),
                ..p1
            }),
            fatos(eventos@) == f1 + fatos_do_saque(p0.inventario, saque.take(i as int), turno),
            identificados(old(eventos)@) ==> identificados(eventos@),
        decreases npc.loot@.len() - i,
    {
        let ghost antes = player.inventario@;
        let ghost fatos_antes = fatos(eventos@);
        proof {
            let agora = saque.take(i + 1);
            assert(agora.drop_last() =~= saque.take(i as int));
            assert(agora.last() == npc.loot@[i as int]@);
        }
        if !possui(&player.inventario, npc.loot[i].as_str()) {
            let item = ItemInventario {
                nome: npc.loot[i].clone(),
                quantidade: 1,
                categoria: String::new(),
            };
            let ghost visto = item@;
            player.inventario.push(item);
            assert(itens(player.inventario@) =~= itens(antes).push(visto));
            let payload = Tabela::new().com("campo", Valor::de_texto("player.inventario")).com(
                "operacao",
                Valor::de_texto("adicionar"),
            ).com("valor", Valor::de_texto(npc.loot[i].as_str()));
            anotar(eventos, EventType::MudancaEstado, "orquestrador", turno, payload);
            assert(fatos(eventos@) =~= f1 + fatos_do_saque(
                p0.inventario,
                saque.take(i + 1),
                turno,
            ));
        }
        i += 1;
    }
    assert(saque.take(i as int) =~= saque);
    assert(fatos(eventos@) =~= f0 + fatos_da_recompensa(p0, npc@, mesa, turno));
}

/// Reação do NPC: só se ele continua vivo e o jogador não fugiu.
fn reagir(
    combate: &mut Combate,
    player: &mut Player,
    npc: &Npc,
    mesa: Mesa,
    turno: u64,
    seed: u64,
    eventos: &mut Vec<Event>,
) -> (encerrado: bool)
    requires
        reacao_definida(old(combate)@, old(player)@, npc@, mesa, seed),
    ensures
        ({
            let r = reacao(
                Rodada {
                    combate: old(combate)@,
                    player: old(player)@,
                    npc: npc@,
                    fatos: fatos(old(eventos)@),
                    encerrado: false,
                },
                mesa,
                turno,
                seed,
            );
            &&& final(combate)@ == r.combate
            &&& final(player)@ == r.player
            &&& fatos(final(eventos)@) == r.fatos
            &&& encerrado == r.encerrado
        }),
        identificados(old(eventos)@) ==> identificados(final(eventos)@),
{
    let s1: u64 = proxima_semente(seed);
    let rolagem: u32 = skill_rolar_dado(20, s1);
    let acertou = rolagem >= mesa.ca_jogador;
    let mut dano: i32 = 0;
    if acertou {
        let faces: u32 = faces_na_ficha(npc);
        dano = rolagem_com_sinal(skill_rolar_dado(faces, proxima_semente(s1)));
        let resto: i32 = player.hp.atual - dano;
        player.hp.atual = if resto < 0 {
            0
        } else {
            resto
        };
    }
    anotar_ataque(
        eventos,
        npc.id.as_str(),
        turno,
        player.id.as_str(),
        rolagem,
        mesa.ca_jogador,
        acertou,
        dano,
    );
    if player.hp.atual == 0 {
        combate.ativo = false;
        let mut causa = "combate contra ".to_string();
        causa.append(npc.nome.as_str());
        let payload = Tabela::new().com("causa", Valor::Texto(causa));
        anotar(eventos, EventType::JogadorMorreu, "orquestrador", turno, payload);
        anotar_encerramento(eventos, turno, npc.id.as_str(), "jogador_morreu");
        true
    } else {
        combate.rodada = combate.rodada + 1;
        false
    }
}

/// Resolve uma rodada completa: a ação do jogador e, se o NPC sobrevive e o
/// jogador não foge, a reação dele. Aplica dano, morte, XP e saque nas fichas
/// em memória; persistir é com quem chama.
pub fn resolver_rodada(
    combate: &mut Combate,
    player: &mut Player,
    npc: &mut Npc,
    acao: TipoAcaoCombate,
    mesa: Mesa,
    turno: u64,
    seed: u64,
) -> (res: ResultadoRodada)
    requires
        rodada_definida(old(combate)@, old(player)@, old(npc)@, acao, mesa, seed),
    ensures
        ({
            let r = rodada(old(combate)@, old(player)@, old(npc)@, acao, mesa, turno, seed);
            &&& final(combate)@ == r.combate
            &&& final(player)@ == r.player
            &&& final(npc)@ == r.npc
            &&& fatos(res.eventos@) == r.fatos
            &&& res.combate_encerrado == r.encerrado
        }),
        identificados(res.eventos@),
{
    let mut eventos: Vec<Event> = Vec::new();
    assert(fatos(eventos@) =~= Seq::<Fato>::empty());
    match acao {
        TipoAcaoCombate::Fugir => {
            let s1: u64 = proxima_semente(seed);
            let rolagem: u32 = skill_rolar_dado(20, s1);
            let fugiu = rolagem >= DIFICULDADE_FUGA_PADRAO;
            let payload = Tabela::new().com("tipo", Valor::de_texto("fuga")).com(
                "rolagem",
                Valor::Inteiro(rolagem as i128),
            ).com("dificuldade", Valor::Inteiro(DIFICULDADE_FUGA_PADRAO as i128)).com(
                "sucesso",
                Valor::Booleano(fugiu),
            );
            anotar(&mut eventos, EventType::AtaqueResolvido, player.id.as_str(), turno, payload);
            if fugiu {
                combate.ativo = false;
                anotar_encerramento(&mut eventos, turno, npc.id.as_str(), "jogador_fugiu");
                return ResultadoRodada { eventos, combate_encerrado: true };
            }
            // Fuga falhou: o NPC ainda ataca de volta.
            let encerrado = reagir(combate, player, npc, mesa, turno, s1, &mut eventos);
            ResultadoRodada { eventos, combate_encerrado: encerrado }
        },
        TipoAcaoCombate::Atacar => {
            let ca: u32 = ca_na_ficha(npc);
            let s1: u64 = proxima_semente(seed);
            let mut ultima: u64 = s1;
            let rolagem: u32 = skill_rolar_dado(20, s1);
            let acertou = rolagem >= ca;
            let mut dano: i32 = 0;
            if acertou {
                ultima = proxima_semente(s1);
                dano = skill_rolar_dado(DANO_JOGADOR_FACES_PADRAO, ultima) as i32;
                match npc.hp {
                    Some(hp) => {
                        let resto: i32 = hp.atual - dano;
                        npc.hp = Some(
                            Hp {
                                atual: if resto < 0 {
                                    0
                                } else {
                                    resto
                                },
                                maximo: hp.maximo,
                            },
                        );
                    },
                    None => {},
                }
            }
            anotar_ataque(
                &mut eventos,
                player.id.as_str(),
                turno,
                npc.id.as_str(),
                rolagem,
                ca,
                acertou,
                dano,
            );
            let derrotado = match npc.hp {
                Some(hp) => hp.atual == 0,
                None => false,
            };
            if derrotado {
                npc.status = NpcStatus::Morto;
                aplicar_recompensa(player, npc, mesa, turno, &mut eventos);
                combate.ativo = false;
                anotar_encerramento(&mut eventos, turno, npc.id.as_str(), "inimigo_derrotado");
                return ResultadoRodada { eventos, combate_encerrado: true };
            }
            let encerrado = reagir(combate, player, npc, mesa, turno, ultima, &mut eventos);
            ResultadoRodada { eventos, combate_encerrado: encerrado }
        },
        TipoAcaoCombate::Outro => {
            let encerrado = reagir(combate, player, npc, mesa, turno, seed, &mut eventos);
            ResultadoRodada { eventos, combate_encerrado: encerrado }
        },
    }
}

} // verus!
