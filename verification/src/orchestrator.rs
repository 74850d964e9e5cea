//! Orquestrador: valida a ação do jogador e escolhe quem reage a ela.

use crate::events::{AcaoJogadorPayload, AcaoRejeitadaPayload, Event, EventType, Fato};
use crate::state::{fichas, fichas_ref, Npc, NpcView, Player};
use crate::tabela::Tabela;
use crate::texto::{em_branco, lei_filtro, mesmo_texto, so_espaco, textos};
use crate::valor::{vazio, Objeto, ObjetoView, Valor, ValorView};
use vstd::prelude::*;

verus! {

/// Cap de agentes ativados por turno.
pub const MAX_AGENTES_POR_TURNO: usize = 4;

/// Prazo de cada agente ativado, em segundos.
pub const AGENT_TIMEOUT_SECS: u64 = 8;

/// O orquestrador de um turno.
#[derive(Debug, Clone, Copy)]
pub struct Orchestrator;

/// O NPC está no local.
pub open spec fn esta_em(location_id: Seq<char>) -> spec_fn(NpcView) -> bool {
    |n: NpcView| n.location_id == location_id
}

/// Os NPCs no local, na ordem.
pub open spec fn no_local(npcs: Seq<NpcView>, location_id: Seq<char>) -> Seq<NpcView> {
    npcs.filter(esta_em(location_id))
}

/// Quem reage no turno: os primeiros NPCs no local do jogador, até o cap.
pub open spec fn agentes_do_turno(npcs: Seq<NpcView>, location_id: Seq<char>) -> Seq<NpcView> {
    let todos = no_local(npcs, location_id);
    if todos.len() > MAX_AGENTES_POR_TURNO {
        todos.take(MAX_AGENTES_POR_TURNO as int)
    } else {
        todos
    }
}

/// Os identificadores de uma lista de NPCs.
pub open spec fn identificadores(ns: Seq<NpcView>) -> Seq<Seq<char>> {
    ns.map_values(|n: NpcView| n.id)
}

/// O conteúdo do evento que fecha um turno.
pub open spec fn payload_fim_de_turno(turno: u64, agentes: Seq<NpcView>) -> ObjetoView {
    vazio().insert("turno"@, ValorView::Inteiro(turno as int)).insert(
        "agentes_participantes"@,
        ValorView::Textos(identificadores(agentes)),
    )
}

/// O que conta o evento que fecha um turno.
pub open spec fn fato_fim_de_turno(turno: u64, agentes: Seq<NpcView>) -> Fato {
    Fato {
        event_type: EventType::FimDeTurno,
        source: "orquestrador"@,
        turn: turno,
        payload: payload_fim_de_turno(turno, agentes),
    }
}

impl Orchestrator {
    /// Guardrail de Entrada: uma ação vazia é rejeitada, qualquer outra passa.
    pub fn validar_acao(&self, player: &Player, acao: &AcaoJogadorPayload) -> (r: Result<
        (),
        AcaoRejeitadaPayload,
    >)
        ensures
            r is Err <==> em_branco(acao.response@),
            r is Err ==> r->Err_0.motivo@ == "acao_vazia"@ && r->Err_0.detalhe@
                == "a ação do jogador não pode ser vazia"@,
    {
        if so_espaco(acao.response.as_str()) {
            return Err(
                AcaoRejeitadaPayload {
                    motivo: "acao_vazia".to_string(),
                    detalhe: "a ação do jogador não pode ser vazia".to_string(),
                },
            );
        }
        Ok(())
    }

    /// Roteamento: todo NPC no local do jogador é candidato, até o cap de
    /// agentes por turno.
    pub fn rotear_agentes<'a>(&self, player: &Player, npcs: &'a [Npc]) -> (r: Vec<&'a Npc>)
        ensures
            fichas_ref(r@) == agentes_do_turno(fichas(npcs@), player@.location_id),
    {
        let ghost vs = fichas(npcs@);
        let ghost local = player@.location_id;
        let mut r: Vec<&'a Npc> = Vec::new();
        let mut i: usize = 0;
        proof {
            reveal(Seq::filter);
            assert(vs.take(0) =~= Seq::<NpcView>::empty());
            assert(fichas_ref(r@) =~= no_local(vs.take(0), local));
        }
        while i < npcs.len() && r.len() < MAX_AGENTES_POR_TURNO
            invariant
                i <= npcs@.len(),
                vs == fichas(npcs@),
                local == player@.location_id,
                r@.len() <= MAX_AGENTES_POR_TURNO,
                fichas_ref(r@) == no_local(vs.take(i as int), local),
            decreases npcs@.len() - i,
        {
            let ghost antes = r@;
            proof {
                reveal(Seq::filter);
                assert(vs.take(i + 1).drop_last() =~= vs.take(i as int));
                assert(vs.take(i + 1).last() == npcs@[i as int]@);
            }
            if mesmo_texto(npcs[i].location_id.as_str(), player.location_id.as_str()) {
                r.push(&npcs[i]);
                assert(fichas_ref(r@) =~= fichas_ref(antes).push(npcs@[i as int]@));
            }
            i += 1;
        }
        proof {
            if i == npcs@.len() {
                assert(vs.take(i as int) =~= vs);
                assert(fichas_ref(r@).len() == r@.len());
                if r@.len() == MAX_AGENTES_POR_TURNO {
                    assert(agentes_do_turno(vs, local) =~= fichas_ref(r@));
                }
            } else {
                lema_filtro_prefixo(vs, i as int, local);
                assert(fichas_ref(r@).len() == r@.len());
                assert(agentes_do_turno(vs, local) =~= fichas_ref(r@));
            }
        }
        r
    }

    /// O evento que fecha um turno.
    pub fn evento_fim_de_turno(&self, turno: u64, agentes: &[&Npc]) -> (e: Event)
        ensures
            e.fato() == fato_fim_de_turno(turno, fichas_ref(agentes@)),
            crate::events::identificador_valido(e.event_id),
    {
        let ghost vs = fichas_ref(agentes@);
        let mut ids: Vec<String> = Vec::new();
        let mut i: usize = 0;
        while i < agentes.len()
            invariant
                i <= agentes@.len(),
                vs == fichas_ref(agentes@),
                ids@.len() == i,
                forall|j: int| 0 <= j < i ==> (#[trigger] ids@[j])@ == vs[j].id,
            decreases agentes@.len() - i,
        {
            let n: &Npc = agentes[i];
            assert(vs[i as int] == n@);
            ids.push(n.id.clone());
            i += 1;
        }
        assert(textos(ids@) =~= identificadores(vs));
        let payload: Objeto = Tabela::new();
        let payload = payload.com("turno", Valor::Inteiro(turno as i128));
        let payload = payload.com("agentes_participantes", Valor::Textos(ids));
        Event::new(EventType::FimDeTurno, "orquestrador", turno, payload)
    }
}

proof fn lema_filtro_prefixo(vs: Seq<NpcView>, k: int, local: Seq<char>)
    requires
        0 <= k <= vs.len(),
    ensures
        no_local(vs, local).len() >= no_local(vs.take(k), local).len(),
        no_local(vs, local).take(no_local(vs.take(k), local).len() as int) == no_local(
            vs.take(k),
            local,
        ),
    decreases vs.len() - k,
{
    let a = no_local(vs.take(k), local);
    if k < vs.len() {
        reveal(Seq::filter);
        let b = no_local(vs.take(k + 1), local);
        let todos = no_local(vs, local);
        lema_filtro_prefixo(vs, k + 1, local);
        assert(vs.take(k + 1).drop_last() =~= vs.take(k));
        assert(b.take(a.len() as int) =~= a);
        assert(todos.take(a.len() as int) =~= todos.take(b.len() as int).take(a.len() as int));
    } else {
        assert(vs.take(k) =~= vs);
        assert(a.take(a.len() as int) =~= a);
    }
}

/// Nunca reagem mais agentes que o cap, e todos os que reagem estão no local e
/// entre os NPCs dados.
pub proof fn lei_roteamento(npcs: Seq<NpcView>, location_id: Seq<char>)
    ensures
        agentes_do_turno(npcs, location_id).len() <= MAX_AGENTES_POR_TURNO,
        forall|i: int|
            0 <= i < agentes_do_turno(npcs, location_id).len() ==> (#[trigger] agentes_do_turno(
                npcs,
                location_id,
            )[i]).location_id == location_id && npcs.contains(
                agentes_do_turno(npcs, location_id)[i],
            ),
{
    let todos = no_local(npcs, location_id);
    assert forall|i: int| 0 <= i < agentes_do_turno(npcs, location_id).len() implies (
    #[trigger] agentes_do_turno(npcs, location_id)[i]).location_id == location_id && npcs.contains(
        agentes_do_turno(npcs, location_id)[i],
    ) by {
        assert(agentes_do_turno(npcs, location_id)[i] == todos[i]);
        npcs.lemma_filter_contains_rev(esta_em(location_id), todos[i]);
        npcs.lemma_filter_pred(esta_em(location_id), i);
    }
}

/// O roteamento é completo: as posições dos que reagem, em ordem crescente, são
/// as dos primeiros NPCs no local. São no máximo quatro, e um NPC no local só
/// fica de fora se quatro antes dele já reagem; se há quatro ou menos no local,
/// reagem todos.
pub proof fn lei_roteamento_completo(npcs: Seq<NpcView>, location_id: Seq<char>) -> (posicoes: Seq<
    int,
>)
    ensures
        posicoes.len() == agentes_do_turno(npcs, location_id).len(),
        posicoes.len() <= 4,
        forall|k: int|
            0 <= k < posicoes.len() ==> 0 <= #[trigger] posicoes[k] < npcs.len()
                && npcs[posicoes[k]].location_id == location_id && agentes_do_turno(
                npcs,
                location_id,
            )[k] == npcs[posicoes[k]],
        forall|a: int, b: int|
            0 <= a < b < posicoes.len() ==> #[trigger] posicoes[a] < #[trigger] posicoes[b],
        forall|i: int|
            0 <= i < npcs.len() && (#[trigger] npcs[i]).location_id == location_id
                ==> posicoes.contains(i) || (posicoes.len() == 4 && posicoes[3] < i),
{
    let todas = lei_filtro(npcs, esta_em(location_id));
    let todos = no_local(npcs, location_id);
    let r = if todas.len() > 4 {
        todas.take(4)
    } else {
        todas
    };
    let agentes = agentes_do_turno(npcs, location_id);
    assert forall|k: int| 0 <= k < r.len() implies 0 <= #[trigger] r[k] < npcs.len()
        && npcs[r[k]].location_id == location_id && agentes[k] == npcs[r[k]] by {
        assert(r[k] == todas[k]);
        assert(agentes[k] == todos[k]);
    }
    assert forall|a: int, b: int| 0 <= a < b < r.len() implies #[trigger] r[a] < #[trigger] r[b] by {
        assert(r[a] == todas[a] && r[b] == todas[b]);
    }
    assert forall|i: int|
        0 <= i < npcs.len() && (#[trigger] npcs[i]).location_id == location_id implies r.contains(i)
        || (r.len() == 4 && r[3] < i) by {
        assert(esta_em(location_id)(npcs[i]));
        let k = choose|k: int| 0 <= k < todas.len() && todas[k] == i;
        if k < r.len() {
            assert(r[k] == i);
        } else {
            assert(todas[3] < todas[k]);
        }
    }
    r
}

/// O evento que fecha um turno é do orquestrador e diz o turno e os
/// identificadores de quem reagiu, na ordem.
pub proof fn lei_fim_de_turno(turno: u64, agentes: Seq<NpcView>)
    ensures
        ({
            let f = fato_fim_de_turno(turno, agentes);
            &&& f.event_type == EventType::FimDeTurno
            &&& f.source == "orquestrador"@
            &&& f.turn == turno
            &&& f.payload.dom() == set!["turno"@, "agentes_participantes"@]
            &&& f.payload["turno"@] == ValorView::Inteiro(turno as int)
            &&& f.payload["agentes_participantes"@] matches ValorView::Textos(ids) && {
                &&& ids.len() == agentes.len()
                &&& forall|i: int| 0 <= i < ids.len() ==> #[trigger] ids[i] == agentes[i].id
            }
        }),
{
    reveal_strlit("turno");
    reveal_strlit("agentes_participantes");
    assert("turno"@.len() != "agentes_participantes"@.len());
    let f = fato_fim_de_turno(turno, agentes);
    assert(f.payload.dom() =~= set!["turno"@, "agentes_participantes"@]);
}

} // verus!
