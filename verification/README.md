# airpg-engine

Núcleo do turno de um RPG de fantasia medieval jogado com modelos de linguagem:
Orquestrador Central, Guardrails Narrativos, agentes reativos, skills
determinísticas e o Estado Rígido do jogo. Um modelo só sugere; as regras
decidem, e são elas que estão provadas aqui.

## Organização

- `src/` — a biblioteca, em Verus. Cada função pública diz no contrato o que
  devolve; as leis que ligam várias funções são as `proof fn` de nome `lei_*`.
  - `texto`, `tabela`, `valor` — textos, tabelas de nomes e valores JSON.
  - `events`, `state` — o envelope dos eventos e as fichas.
  - `skills`, `combate` — rolagens, tabelas do SRD e a rodada de combate.
  - `state_changes` — propostas de mudança: lista fechada e economia.
  - `orchestrator`, `turno` — quem reage a uma ação e o lote de eventos.
  - `llm`, `jsonutil`, `guardrail`, `mestre`, `personagens`, `reacoes`,
    `consolidacao`, `livre_arbitrio` — o que se pede a um modelo e o que se faz
    com a resposta.
  - `db` — o que se grava e o que se entende do que foi gravado.
  - `rag`, `ingest_srd` — busca de regras e ingestão do SRD.
- `tests/` — a biblioteca em execução.
- `app/` — o serviço: HTTP, NATS, SQLite, o gateway de modelos e a ingestão.

## Serviço

- `GET /health`
- `POST /turn` com `{ "situation": "...", "response": "..." }` devolve
  `{ "turno": n, "eventos": [...] }`.
- `ingest-srd` prepara o banco da busca de regras.

Variáveis de ambiente, todas com valor de desenvolvimento: `DATABASE_URL`,
`NATS_URL`, `LITELLM_URL`, `LITELLM_API_KEY`, `LITELLM_MODEL`.
