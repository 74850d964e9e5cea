//! Núcleo do turno de um RPG de fantasia: orquestrador, guardrails narrativos,
//! agentes reativos, skills determinísticas e o Estado Rígido do jogo. Modelos de
//! linguagem só sugerem; tudo o que eles respondem passa por aqui antes de valer.

pub mod combate;
pub mod consolidacao;
pub mod db;
pub mod events;
pub mod guardrail;
pub mod ingest_srd;
pub mod jsonutil;
pub mod livre_arbitrio;
pub mod llm;
pub mod mestre;
pub mod orchestrator;
pub mod personagens;
pub mod rag;
pub mod reacoes;
pub mod skills;
pub mod state;
pub mod state_changes;
pub mod tabela;
pub mod texto;
pub mod turno;
pub mod valor;
