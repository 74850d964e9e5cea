//! O turno: da ação do jogador ao lote de eventos que a responde, e o encontro
//! com um NPC autônomo.

use crate::events::{
    fatos, identificador_valido, identificados, AcaoJogadorPayload, Event, EventType, Fato,
};
use crate::livre_arbitrio::{evento_dialogo, fato_dialogo};
use crate::orchestrator::{
    agentes_do_turno, fato_fim_de_turno, identificadores, Orchestrator, MAX_AGENTES_POR_TURNO,
};
use crate::state::{fichas_ref, trocas, Npc, NpcView, Player, PlayerView};
use crate::state_changes::{
    aplicacao, aplicar_propostas, cabe_na_vez, fatos_apos, ficha_apos, propostas_vistas,
    MudancaProposta, PropostaView,
};
use crate::tabela::Tabela;
use crate::texto::{em_branco, juntado, juntar, textos};
use crate::valor::{vazio, Objeto, Valor, ValorView};
use vstd::prelude::*;

verus! {

/// O jogador padrão.
pub const PLAYER_ID: &'static str = "player_01";

/// O que um NPC autônomo percebe ao encontrar o jogador.
pub const ABERTURA_DA_COLISAO: &'static str = "O NPC encontra o jogador por acaso.";

/// O jogador do turno: o gravado, ou uma ficha inicial.
pub fn jogador_do_turno(achado: Option<Player>) -> (p: Player)
    ensures
        match achado {
            Some(a) => p == a,
            None => p@ == PlayerView::inicial(PLAYER_ID@),
        },
{
    match achado {
        Some(p) => p,
        None => Player::seed(PLAYER_ID),
    }
}

// ---------------------------------------------------------------------------
// Rejeição
// ---------------------------------------------------------------------------

/// O que conta a rejeição de uma ação vazia.
pub open spec fn fato_rejeicao(turno: u64) -> Fato {
    Fato {
        event_type: EventType::AcaoRejeitada,
        source: "guardrail_entrada"@,
        turn: turno,
        payload: vazio().insert("motivo"@, ValorView::Texto("acao_vazia"@)).insert(
            "detalhe"@,
            ValorView::Texto("a ação do jogador não pode ser vazia"@),
        ),
    }
}

/// Abre o turno: uma ação vazia o encerra aqui, com um único evento.
pub fn abrir_turno(
    orquestrador: &Orchestrator,
    player: &Player,
    acao: &AcaoJogadorPayload,
    turno: u64,
) -> (r: Option<Vec<Event>>)
    ensures
        match r {
            Some(eventos) => em_branco(acao.response@) && fatos(eventos@) == seq![
                fato_rejeicao(turno),
            ] && identificados(eventos@),
            None => !em_branco(acao.response@),
        },
{
    match orquestrador.validar_acao(player, acao) {
        Ok(_) => None,
        Err(rejeicao) => {
            let payload: Objeto = Tabela::new();
            let payload = payload.com("motivo", Valor::Texto(rejeicao.motivo));
            let payload = payload.com("detalhe", Valor::Texto(rejeicao.detalhe));
            let mut eventos: Vec<Event> = Vec::new();
            eventos.push(Event::new(EventType::AcaoRejeitada, "guardrail_entrada", turno, payload));
            assert(fatos(eventos@) =~= seq![fato_rejeicao(turno)]);
            Some(eventos)
        },
    }
}

// ---------------------------------------------------------------------------
// Reações e mudanças
// ---------------------------------------------------------------------------

/// Uma reação, como o Mestre de Jogo a lê.
pub open spec fn linha_da_reacao(r: (Seq<char>, Seq<char>)) -> Seq<char> {
    r.0 + " disse: "@ + r.1
}

/// As reações, como o Mestre de Jogo as lê.
pub open spec fn linhas_das_reacoes(rs: Seq<(Seq<char>, Seq<char>)>) -> Seq<Seq<char>> {
    rs.map_values(|r: (Seq<char>, Seq<char>)| linha_da_reacao(r))
}

/// O que aconteceu no turno, como o Mestre de Jogo o lê.
pub open spec fn contexto(acao: Seq<char>, rs: Seq<(Seq<char>, Seq<char>)>) -> Seq<char> {
    "Ação do jogador: "@ + acao + "\n"@ + juntado(linhas_das_reacoes(rs), "\n"@)
}

/// Escreve o que aconteceu no turno.
pub fn contexto_do_turno(acao: &str, respostas: &[(String, String)]) -> (r: String)
    ensures
        r@ == contexto(acao@, trocas(respostas@)),
{
    let ghost linhas = linhas_das_reacoes(trocas(respostas@));
    let mut partes: Vec<String> = Vec::new();
    let mut i: usize = 0;
    while i < respostas.len()
        invariant
            i <= respostas@.len(),
            linhas == linhas_das_reacoes(trocas(respostas@)),
            partes@.len() == i,
            forall|j: int| 0 <= j < i ==> (#[trigger] partes@[j])@ == linhas[j],
        decreases respostas@.len() - i,
    {
        let mut s = respostas[i].0.clone();
        s.append(" disse: ");
        s.append(respostas[i].1.as_str());
        partes.push(s);
        i += 1;
    }
    assert(textos(partes@) =~= linhas);
    let mut r = "Ação do jogador: ".to_string();
    r.append(acao);
    r.append("\n");
    r.append(juntar(partes.as_slice(), "\n").as_str());
    r
}

/// As reações dos agentes: cada um com a sua fala, na ordem.
pub open spec fn reacoes_dos_agentes(agentes: Seq<NpcView>, falas: Seq<Seq<char>>) -> Seq<
    (Seq<char>, Seq<char>),
> {
    Seq::new(
        if agentes.len() <= falas.len() {
            agentes.len()
        } else {
            falas.len()
        },
        |i: int| (agentes[i].id, falas[i]),
    )
}

/// Junta cada agente à sua fala: `falas` tem uma por agente, na mesma ordem. O
/// que sobra de um lado não entra.
pub fn reunir_reacoes(agentes: &[&Npc], falas: Vec<String>) -> (r: Vec<(String, String)>)
    ensures
        trocas(r@) == reacoes_dos_agentes(fichas_ref(agentes@), textos(falas@)),
{
    let ghost todas = reacoes_dos_agentes(fichas_ref(agentes@), textos(falas@));
    let mut r: Vec<(String, String)> = Vec::new();
    let mut i: usize = 0;
    while i < agentes.len() && i < falas.len()
        invariant
            i <= agentes@.len(),
            i <= falas@.len(),
            todas == reacoes_dos_agentes(fichas_ref(agentes@), textos(falas@)),
            r@.len() == i,
            forall|j: int|
                0 <= j < i ==> ((#[trigger] r@[j]).0@, r@[j].1@) == todas[j],
        decreases agentes@.len() - i,
    {
        let npc: &Npc = agentes[i];
        r.push((npc.id.clone(), falas[i].clone()));
        assert(fichas_ref(agentes@)[i as int] == npc@);
        assert(textos(falas@)[i as int] == falas@[i as int]@);
        i += 1;
    }
    assert(trocas(r@) =~= todas);
    r
}

/// O que contam as reações: uma fala por resposta, na ordem.
pub open spec fn fatos_das_reacoes(rs: Seq<(Seq<char>, Seq<char>)>, turno: u64) -> Seq<Fato> {
    rs.map_values(|r: (Seq<char>, Seq<char>)| fato_dialogo(r.0, turno, r.1))
}

/// O lote de um turno: as reações, as mudanças aplicadas, e o fim.
pub open spec fn lote(
    player: PlayerView,
    turno: u64,
    agentes: Seq<NpcView>,
    rs: Seq<(Seq<char>, Seq<char>)>,
    ms: Seq<PropostaView>,
) -> Seq<Fato> {
    (fatos_das_reacoes(rs, turno) + fatos_apos(player, turno, ms, ms.len() as int)).push(
        fato_fim_de_turno(turno, agentes),
    )
}

fn anotar_reacoes(respostas: &[(String, String)], turno: u64) -> (eventos: Vec<Event>)
    ensures
        fatos(eventos@) == fatos_das_reacoes(trocas(respostas@), turno),
        identificados(eventos@),
{
    let ghost todos = fatos_das_reacoes(trocas(respostas@), turno);
    let mut eventos: Vec<Event> = Vec::new();
    let mut i: usize = 0;
    while i < respostas.len()
        invariant
            i <= respostas@.len(),
            todos == fatos_das_reacoes(trocas(respostas@), turno),
            eventos@.len() == i,
            forall|j: int| 0 <= j < i ==> (#[trigger] eventos@[j]).fato() == todos[j],
            identificados(eventos@),
        decreases respostas@.len() - i,
    {
        eventos.push(evento_dialogo(respostas[i].0.as_str(), turno, respostas[i].1.as_str()));
        i += 1;
    }
    assert(fatos(eventos@) =~= todos);
    eventos
}

/// Fecha o turno: anota as reações dos agentes, aplica as mudanças propostas à
/// ficha do jogador e devolve o lote de eventos. Se uma proposta não cabe nos
/// números da ficha, para antes dela e diz qual é.
pub fn processar_turno(
    orquestrador: &Orchestrator,
    player: &mut Player,
    turno: u64,
    agentes: &[&Npc],
    respostas: &[(String, String)],
    propostas: &[MudancaProposta],
) -> (r: Result<Vec<Event>, usize>)
    ensures
        ({
            let ms = propostas_vistas(propostas@);
            match r {
                Ok(eventos) => {
                    &&& final(player)@ == ficha_apos(old(player)@, turno, ms, ms.len() as int)
                    &&& fatos(eventos@) == lote(
                        old(player)@,
                        turno,
                        fichas_ref(agentes@),
                        trocas(respostas@),
                        ms,
                    )
                    &&& identificados(eventos@)
                    &&& forall|i: int|
                        0 <= i < ms.len() ==> #[trigger] cabe_na_vez(old(player)@, turno, ms, i)
                },
                Err(i) => {
                    &&& i < ms.len()
                    &&& final(player)@ == ficha_apos(old(player)@, turno, ms, i as int)
                    &&& !cabe_na_vez(old(player)@, turno, ms, i as int)
                    &&& forall|j: int|
                        0 <= j < i ==> #[trigger] cabe_na_vez(old(player)@, turno, ms, j)
                },
            }
        }),
{
    let mut eventos = anotar_reacoes(respostas, turno);
    match aplicar_propostas(player, turno, propostas, &mut eventos) {
        Err(i) => Err(i),
        Ok(_) => {
            let ghost antes = eventos@;
            eventos.push(orquestrador.evento_fim_de_turno(turno, agentes));
            assert(fatos(eventos@) =~= fatos(antes).push(
                fato_fim_de_turno(turno, fichas_ref(agentes@)),
            ));
            Ok(eventos)
        },
    }
}

proof fn lema_fatos_do_turno(p: PlayerView, turno: u64, ms: Seq<PropostaView>, n: int)
    ensures
        forall|i: int|
            0 <= i < fatos_apos(p, turno, ms, n).len() ==> (#[trigger] fatos_apos(
                p,
                turno,
                ms,
                n,
            )[i]).turn == turno && fatos_apos(p, turno, ms, n)[i].event_type
                == EventType::MudancaEstado,
    decreases n,
{
    if n > 0 {
        lema_fatos_do_turno(p, turno, ms, n - 1);
        let antes = ficha_apos(p, turno, ms, n - 1);
        if aplicacao(antes, turno, ms[n - 1]) is Ok {
            let f = (aplicacao(antes, turno, ms[n - 1])->Ok_0).1;
            assert(f.turn == turno && f.event_type == EventType::MudancaEstado);
        }
    }
}

/// Todo evento do lote é do turno, o último é o único que o encerra, e as
/// reações vêm primeiro, uma por agente que respondeu.
pub proof fn lei_lote_do_turno(
    player: PlayerView,
    turno: u64,
    agentes: Seq<NpcView>,
    rs: Seq<(Seq<char>, Seq<char>)>,
    ms: Seq<PropostaView>,
)
    ensures
        lote(player, turno, agentes, rs, ms).len() >= rs.len() + 1,
        lote(player, turno, agentes, rs, ms).last() == fato_fim_de_turno(turno, agentes),
        forall|i: int|
            0 <= i < lote(player, turno, agentes, rs, ms).len() ==> (#[trigger] lote(
                player,
                turno,
                agentes,
                rs,
                ms,
            )[i]).turn == turno,
        forall|i: int|
            0 <= i < lote(player, turno, agentes, rs, ms).len() - 1 ==> (#[trigger] lote(
                player,
                turno,
                agentes,
                rs,
                ms,
            )[i]).event_type == (if i < rs.len() {
                EventType::Dialogo
            } else {
                EventType::MudancaEstado
            }),
{
    lema_fatos_do_turno(player, turno, ms, ms.len() as int);
    let l = lote(player, turno, agentes, rs, ms);
    let mudancas = fatos_apos(player, turno, ms, ms.len() as int);
    assert forall|i: int| 0 <= i < l.len() implies (#[trigger] l[i]).turn == turno by {
        if rs.len() <= i < l.len() - 1 {
            assert(l[i] == mudancas[i - rs.len()]);
        }
    }
    assert forall|i: int| 0 <= i < l.len() - 1 implies (#[trigger] l[i]).event_type == (if i
        < rs.len() {
        EventType::Dialogo
    } else {
        EventType::MudancaEstado
    }) by {
        if i >= rs.len() {
            assert(l[i] == mudancas[i - rs.len()]);
        }
    }
}

/// Cada agente roteado reage uma vez, na ordem: se há uma fala por agente, o
/// n-ésimo evento do lote é a fala do n-ésimo agente, e não há outras falas. Quem
/// fala é quem o fim de turno diz que participou, e são no máximo quatro.
pub proof fn lei_cada_agente_reage_uma_vez(
    player: PlayerView,
    turno: u64,
    npcs: Seq<NpcView>,
    falas: Seq<Seq<char>>,
    ms: Seq<PropostaView>,
)
    requires
        falas.len() == agentes_do_turno(npcs, player.location_id).len(),
    ensures
        ({
            let agentes = agentes_do_turno(npcs, player.location_id);
            let l = lote(player, turno, agentes, reacoes_dos_agentes(agentes, falas), ms);
            &&& agentes.len() <= MAX_AGENTES_POR_TURNO
            &&& l.len() > agentes.len()
            &&& forall|i: int|
                0 <= i < agentes.len() ==> #[trigger] l[i] == fato_dialogo(
                    agentes[i].id,
                    turno,
                    falas[i],
                )
            &&& forall|i: int|
                0 <= i < l.len() ==> ((#[trigger] l[i]).event_type == EventType::Dialogo <==> i
                    < agentes.len())
            &&& forall|i: int|
                0 <= i < agentes.len() ==> (#[trigger] l[i]).source == identificadores(agentes)[i]
        }),
{
    let agentes = agentes_do_turno(npcs, player.location_id);
    let rs = reacoes_dos_agentes(agentes, falas);
    lei_lote_do_turno(player, turno, agentes, rs, ms);
    let l = lote(player, turno, agentes, rs, ms);
    assert forall|i: int| 0 <= i < agentes.len() implies #[trigger] l[i] == fato_dialogo(
        agentes[i].id,
        turno,
        falas[i],
    ) by {
        assert(l[i] == fatos_das_reacoes(rs, turno)[i]);
        assert(rs[i] == (agentes[i].id, falas[i]));
    }
    assert forall|i: int| 0 <= i < l.len() implies ((#[trigger] l[i]).event_type
        == EventType::Dialogo <==> i < agentes.len()) by {
        if i == l.len() - 1 {
            assert(l[i] == l.last());
        }
    }
}

// ---------------------------------------------------------------------------
// Encontro com um NPC autônomo
// ---------------------------------------------------------------------------

/// O que conta o fim de uma interação que um NPC autônomo começou.
pub open spec fn fato_interacao_finalizada(npc_id: Seq<char>, turno: u64) -> Fato {
    Fato {
        event_type: EventType::InteracaoFinalizada,
        source: "orquestrador"@,
        turn: turno,
        payload: vazio().insert("agent_id"@, ValorView::Texto(npc_id)).insert(
            "resultado"@,
            ValorView::Texto("interacao_reativa_concluida"@),
        ),
    }
}

/// Os eventos de um encontro: a fala do NPC e o fim da interação.
pub fn reagir_a_colisao(npc: &Npc, turno: u64, texto: &str) -> (r: (Event, Event))
    ensures
        r.0.fato() == fato_dialogo(npc@.id, turno, texto@),
        r.1.fato() == fato_interacao_finalizada(npc@.id, turno),
        identificador_valido(r.0.event_id),
        identificador_valido(r.1.event_id),
{
    let fala = evento_dialogo(npc.id.as_str(), turno, texto);
    let payload: Objeto = Tabela::new();
    let payload = payload.com("agent_id", Valor::de_texto(npc.id.as_str()));
    let payload = payload.com("resultado", Valor::de_texto("interacao_reativa_concluida"));
    (fala, Event::new(EventType::InteracaoFinalizada, "orquestrador", turno, payload))
}

// ---------------------------------------------------------------------------
// Leis do turno, sobre o que os eventos contam
// ---------------------------------------------------------------------------

/// O evento de uma fala é de quem falou e diz o texto; o de uma rejeição é do
/// guardrail de entrada e diz que a ação é vazia; e o fim de uma interação diz com
/// quem foi.
pub proof fn lei_eventos_do_turno(npc_id: Seq<char>, turno: u64, texto: Seq<char>)
    ensures
        ({
            let f = fato_dialogo(npc_id, turno, texto);
            &&& f.event_type == EventType::Dialogo
            &&& f.source == npc_id
            &&& f.turn == turno
            &&& f.payload.dom() == set!["texto"@]
            &&& f.payload["texto"@] == ValorView::Texto(texto)
        }),
        ({
            let f = fato_rejeicao(turno);
            &&& f.event_type == EventType::AcaoRejeitada
            &&& f.source == "guardrail_entrada"@
            &&& f.turn == turno
            &&& f.payload.dom() == set!["motivo"@, "detalhe"@]
            &&& f.payload["motivo"@] == ValorView::Texto("acao_vazia"@)
            &&& f.payload["detalhe"@] == ValorView::Texto(
                "a ação do jogador não pode ser vazia"@,
            )
        }),
        ({
            let f = fato_interacao_finalizada(npc_id, turno);
            &&& f.event_type == EventType::InteracaoFinalizada
            &&& f.source == "orquestrador"@
            &&& f.turn == turno
            &&& f.payload.dom() == set!["agent_id"@, "resultado"@]
            &&& f.payload["agent_id"@] == ValorView::Texto(npc_id)
            &&& f.payload["resultado"@] == ValorView::Texto("interacao_reativa_concluida"@)
        }),
{
    reveal_strlit("motivo");
    reveal_strlit("detalhe");
    reveal_strlit("agent_id");
    reveal_strlit("resultado");
    assert("motivo"@.len() == 6 && "detalhe"@.len() == 7);
    assert("agent_id"@.len() == 8 && "resultado"@.len() == 9);
    assert(fato_dialogo(npc_id, turno, texto).payload.dom() =~= set!["texto"@]);
    assert(fato_rejeicao(turno).payload.dom() =~= set!["motivo"@, "detalhe"@]);
    assert(fato_interacao_finalizada(npc_id, turno).payload.dom() =~= set![
        "agent_id"@,
        "resultado"@,
    ]);
}

/// O lote de um turno é, na ordem e sem mais nada: uma fala por reação, o que cada
/// mudança aceita conta, e o fim do turno.
pub proof fn lei_lote_por_inteiro(
    player: PlayerView,
    turno: u64,
    agentes: Seq<NpcView>,
    rs: Seq<(Seq<char>, Seq<char>)>,
    ms: Seq<PropostaView>,
)
    ensures
        ({
            let l = lote(player, turno, agentes, rs, ms);
            let mudancas = fatos_apos(player, turno, ms, ms.len() as int);
            &&& l.len() == rs.len() + mudancas.len() + 1
            &&& forall|i: int|
                0 <= i < rs.len() ==> #[trigger] l[i] == fato_dialogo(rs[i].0, turno, rs[i].1)
            &&& l.subrange(rs.len() as int, rs.len() + mudancas.len() as int) == mudancas
            &&& l.last() == fato_fim_de_turno(turno, agentes)
        }),
{
    let l = lote(player, turno, agentes, rs, ms);
    let mudancas = fatos_apos(player, turno, ms, ms.len() as int);
    assert(l.subrange(rs.len() as int, rs.len() + mudancas.len() as int) =~= mudancas);
}

/// O que o Mestre de Jogo lê de um turno começa pela ação e cresce uma linha por
/// reação, na ordem, com quem falou e o que disse.
pub proof fn lei_contexto(
    acao: Seq<char>,
    rs: Seq<(Seq<char>, Seq<char>)>,
    r: (Seq<char>, Seq<char>),
)
    ensures
        contexto(acao, Seq::empty()) == "Ação do jogador: "@ + acao + "\n"@,
        contexto(acao, rs.push(r)) == contexto(acao, rs) + (if rs.len() == 0 {
            Seq::empty()
        } else {
            "\n"@
        }) + (r.0 + " disse: "@ + r.1),
{
    let cabeca = "Ação do jogador: "@ + acao + "\n"@;
    let linhas = linhas_das_reacoes(rs);
    let linha = linha_da_reacao(r);
    assert(linhas_das_reacoes(Seq::empty()) =~= Seq::<Seq<char>>::empty());
    assert(cabeca + Seq::<char>::empty() =~= cabeca);
    assert(linhas_das_reacoes(rs.push(r)) =~= linhas.push(linha));
    crate::texto::lema_juntado_parte(linhas, "\n"@, linha);
    if rs.len() == 0 {
        assert(linhas =~= Seq::<Seq<char>>::empty());
        assert(cabeca + linha =~= cabeca + Seq::<char>::empty() + Seq::<char>::empty() + linha);
    } else {
        assert(cabeca + (juntado(linhas, "\n"@) + "\n"@ + linha) =~= cabeca + juntado(
            linhas,
            "\n"@,
        ) + "\n"@ + linha);
    }
}

/// As reações juntam cada agente à sua fala, na ordem: há uma por agente que tem
/// fala, e nenhuma outra.
pub proof fn lei_reacoes_dos_agentes(agentes: Seq<NpcView>, falas: Seq<Seq<char>>)
    ensures
        ({
            let r = reacoes_dos_agentes(agentes, falas);
            &&& r.len() <= agentes.len() && r.len() <= falas.len()
            &&& r.len() == agentes.len() || r.len() == falas.len()
            &&& forall|i: int|
                0 <= i < r.len() ==> (#[trigger] r[i]).0 == agentes[i].id && r[i].1 == falas[i]
        }),
{
}

} // verus!
