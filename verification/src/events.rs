//! O envelope comum a todo evento do sistema, e os conteúdos com nome próprio.

use crate::valor::{Objeto, ObjetoView, Valor};
use vstd::prelude::*;

verus! {

/// O tipo de um evento.
#[derive(Debug, Clone, Copy, PartialEq, Eq, Structural)]
pub enum EventType {
    AcaoJogador,
    AcaoValidada,
    AcaoRejeitada,
    Dialogo,
    ResultadoSkill,
    MudancaEstado,
    ErroGuardrail,
    FimDeTurno,
    ImpactoCampanha,
    /// Publicado pelo Mundo Vivo quando um NPC autônomo encontra o jogador.
    ColisaoJogadorAgente,
    /// Publicado pelo engine de volta ao Mundo Vivo ao fim de uma interação
    /// reativa.
    InteracaoFinalizada,
    PedidoEsclarecimento,
    AtaqueResolvido,
    CombateEncerrado,
    JogadorMorreu,
    SubiuDeNivel,
}

/// Um instante: segundos desde 1970-01-01 00:00:00 UTC e os nanossegundos
/// dentro do segundo.
#[derive(Debug, Clone, Copy, PartialEq, Eq, Structural)]
pub struct Instante {
    pub segundos: i64,
    pub nanos: u32,
}

/// Envelope de um evento. `event_id` é o UUID pelo seu valor de 128 bits.
#[derive(Debug, Clone)]
pub struct Event {
    pub event_id: u128,
    pub event_type: EventType,
    pub source: String,
    pub turn: u64,
    pub timestamp: Instante,
    pub payload: Objeto,
}

/// O que um evento conta: tudo menos a sua identidade e a sua hora.
pub struct Fato {
    pub event_type: EventType,
    pub source: Seq<char>,
    pub turn: u64,
    pub payload: ObjetoView,
}

/// A versão de um UUID: os quatro bits altos do sétimo byte.
pub open spec fn versao_do_uuid(id: u128) -> int {
    (id as int / 0x10000000000000000000) % 16
}

/// A variante de um UUID: os dois bits altos do nono byte.
pub open spec fn variante_do_uuid(id: u128) -> int {
    (id as int / 0x4000000000000000) % 4
}

/// Um identificador de evento: UUID aleatório (versão 4), variante RFC 4122.
pub open spec fn identificador_valido(id: u128) -> bool {
    versao_do_uuid(id) == 4 && variante_do_uuid(id) == 2
}

/// `uuid::Uuid::new_v4` e `as_u128`: um UUID sorteado, pelo seu valor big
/// endian de 128 bits. Os bits de versão e variante são fixos, os outros são
/// acaso. Numa máquina sem fonte de acaso a chamada não volta.
#[verifier::external_body]
fn sortear_identificador() -> (id: u128)
    ensures
        identificador_valido(id),
{
    uuid::Uuid::new_v4().as_u128()
}

/// `chrono::Utc::now`: a hora do relógio da máquina, que precisa estar depois
/// de 1970. Dos nanossegundos só se sabe que ficam abaixo de dois segundos
/// (um segundo intercalar passa de um).
#[verifier::external_body]
fn ler_relogio() -> (t: Instante)
    ensures
        t.nanos < 2_000_000_000,
{
    let agora = chrono::Utc::now();
    Instante { segundos: agora.timestamp(), nanos: agora.timestamp_subsec_nanos() }
}

impl Event {
    /// O que o evento conta.
    pub open spec fn fato(self) -> Fato {
        Fato {
            event_type: self.event_type,
            source: self.source@,
            turn: self.turn,
            payload: self.payload@,
        }
    }

    /// Um evento novo, com identidade sorteada e a hora de agora.
    pub fn new(event_type: EventType, source: &str, turn: u64, payload: Objeto) -> (e: Event)
        ensures
            e.fato() == (Fato { event_type, source: source@, turn, payload: payload@ }),
            identificador_valido(e.event_id),
            e.timestamp.nanos < 2_000_000_000,
    {
        Event::com_identidade(
            sortear_identificador(),
            ler_relogio(),
            event_type,
            source,
            turn,
            payload,
        )
    }

    /// O evento com a identidade e a hora dadas.
    pub fn com_identidade(
        event_id: u128,
        timestamp: Instante,
        event_type: EventType,
        source: &str,
        turn: u64,
        payload: Objeto,
    ) -> (e: Event)
        ensures
            e.fato() == (Fato { event_type, source: source@, turn, payload: payload@ }),
            e.event_id == event_id,
            e.timestamp == timestamp,
    {
        Event { event_id, event_type, source: source.to_string(), turn, timestamp, payload }
    }
}

/// O que uma lista de eventos conta, na ordem.
pub open spec fn fatos(eventos: Seq<Event>) -> Seq<Fato> {
    eventos.map_values(|e: Event| e.fato())
}

/// Todo evento da lista tem um identificador válido.
pub open spec fn identificados(eventos: Seq<Event>) -> bool {
    forall|i: int| 0 <= i < eventos.len() ==> identificador_valido((#[trigger] eventos[i]).event_id)
}

/// Acrescenta um evento novo ao fim de uma lista.
pub fn anotar(
    eventos: &mut Vec<Event>,
    event_type: EventType,
    source: &str,
    turn: u64,
    payload: Objeto,
)
    ensures
        fatos(final(eventos)@) == fatos(old(eventos)@).push(
            Fato { event_type, source: source@, turn, payload: payload@ },
        ),
        identificados(old(eventos)@) ==> identificados(final(eventos)@),
{
    let ghost antes = eventos@;
    let ghost fato = Fato { event_type, source: source@, turn, payload: payload@ };
    eventos.push(Event::new(event_type, source, turn, payload));
    assert(fatos(eventos@) =~= fatos(antes).push(fato));
}

/// A ação que o jogador escreveu.
#[derive(Debug, Clone)]
pub struct AcaoJogadorPayload {
    pub situation: String,
    pub response: String,
}

/// Por que uma ação foi rejeitada.
#[derive(Debug, Clone)]
pub struct AcaoRejeitadaPayload {
    pub motivo: String,
    pub detalhe: String,
}

/// Uma mudança de estado aplicada.
#[derive(Debug, Clone)]
pub struct MudancaEstadoPayload {
    pub campo: String,
    pub operacao: String,
    pub valor: Valor,
}

/// Um NPC autônomo encontrou o jogador.
#[derive(Debug, Clone)]
pub struct ColisaoJogadorAgentePayload {
    pub agent_id: String,
    pub location_id: String,
}

} // verus!
