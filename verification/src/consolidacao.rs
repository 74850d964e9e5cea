//! Consolidação de memória: de tempos em tempos uma consulta resume o que saiu
//! da janela de trocas e atualiza o estado emocional, em vez de deixar a janela
//! crescer sem limite.

use crate::llm::{Pedido, Resposta};
use crate::state::{trocas, EstadoEmocional, EstadoEmocionalView};
use crate::texto::{juntado, juntar, textos};
use vstd::prelude::*;

verus! {

/// As instruções de quem resume.
pub const SYSTEM_PROMPT: &'static str = r#"Você analisa uma conversa entre um NPC de RPG e um jogador para atualizar a memória de longo prazo do NPC.
Responda APENAS com um JSON no formato:
{
  "resumo": "1-3 frases resumindo o relacionamento e eventos importantes até agora",
  "estado_emocional": {
    "prazer": -1.0 a 1.0 (quão agradável o NPC sente a interação, -1 sofrimento, 1 êxtase),
    "ativacao": -1.0 a 1.0 (nível de energia/alerta, -1 letárgico, 1 agitado/furioso),
    "dominancia": -1.0 a 1.0 (sentimento de controle, -1 submisso/impotente, 1 dominante/protetor),
    "confianca": -1.0 a 1.0 (quanto o NPC acredita no jogador),
    "respeito": -1.0 a 1.0,
    "afinidade": -1.0 a 1.0 (calor/frieza),
    "tags": ["rótulos curtos de eventos marcantes, ex: traidor_recente, divida_nao_paga"],
    "lente_perceptiva": "breve descrição de como o NPC está enquadrando o jogador agora, ex: Paranoia Defensiva",
    "motivacao_imediata": "o que o NPC quer fazer agora nesta conversa, em poucas palavras"
  }
}
Se nada de emocionalmente relevante aconteceu, ainda assim preencha os campos refletindo o estado atual (não invente eventos que não ocorreram)."#;

/// Quantos rótulos uma memória guarda.
pub const MAX_TAGS: usize = 5;

/// O que a consulta respondeu.
#[derive(Debug, Clone)]
pub struct ConsolidacaoGerada {
    pub resumo: String,
    pub estado_emocional: EstadoEmocional,
}

/// O que passa a valer depois de uma consolidação.
#[derive(Debug, Clone)]
pub struct ResultadoConsolidacao {
    pub resumo: String,
    pub estado_emocional: EstadoEmocional,
}

/// Uma troca, como quem resume a lê.
pub open spec fn linha_da_troca(troca: (Seq<char>, Seq<char>), npc_nome: Seq<char>) -> Seq<char> {
    "Jogador: "@ + troca.0 + "\n"@ + npc_nome + ": "@ + troca.1
}

/// As trocas, como quem resume as lê.
pub open spec fn linhas_das_trocas(ts: Seq<(Seq<char>, Seq<char>)>, npc_nome: Seq<char>) -> Seq<
    Seq<char>,
> {
    ts.map_values(|t: (Seq<char>, Seq<char>)| linha_da_troca(t, npc_nome))
}

/// A entrada da consulta. O resumo atual entra para ser substituído, não
/// empilhado.
pub open spec fn entrada_da_consolidacao(
    npc_nome: Seq<char>,
    resumo_atual: Seq<char>,
    ts: Seq<(Seq<char>, Seq<char>)>,
) -> Seq<char> {
    "Resumo anterior: "@ + resumo_atual + "\n\nTrocas recentes:\n"@ + juntado(
        linhas_das_trocas(ts, npc_nome),
        "\n"@,
    )
}

/// O estado com os eixos em `[-1, 1]` e os primeiros rótulos. Só os eixos
/// decidem alguma coisa; os textos são contexto.
pub open spec fn estado_limitado(e: EstadoEmocionalView) -> EstadoEmocionalView {
    EstadoEmocionalView {
        prazer: e.prazer.limitado(),
        ativacao: e.ativacao.limitado(),
        dominancia: e.dominancia.limitado(),
        confianca: e.confianca.limitado(),
        respeito: e.respeito.limitado(),
        afinidade: e.afinidade.limitado(),
        tags: if e.tags.len() > MAX_TAGS {
            e.tags.take(MAX_TAGS as int)
        } else {
            e.tags
        },
        ..e
    }
}

/// A consulta que consolida uma memória.
pub fn pedido_de_consolidacao(
    npc_nome: &str,
    resumo_atual: &str,
    recentes: &[(String, String)],
) -> (p: Pedido)
    ensures
        p.system@ == SYSTEM_PROMPT@,
        p.user@ == entrada_da_consolidacao(npc_nome@, resumo_atual@, trocas(recentes@)),
{
    let ghost linhas = linhas_das_trocas(trocas(recentes@), npc_nome@);
    let mut partes: Vec<String> = Vec::new();
    let mut i: usize = 0;
    while i < recentes.len()
        invariant
            i <= recentes@.len(),
            partes@.len() == i,
            linhas == linhas_das_trocas(trocas(recentes@), npc_nome@),
            forall|j: int| 0 <= j < i ==> (#[trigger] partes@[j])@ == linhas[j],
        decreases recentes@.len() - i,
    {
        let mut linha = "Jogador: ".to_string();
        linha.append(recentes[i].0.as_str());
        linha.append("\n");
        linha.append(npc_nome);
        linha.append(": ");
        linha.append(recentes[i].1.as_str());
        partes.push(linha);
        i += 1;
    }
    assert(textos(partes@) =~= linhas);
    let mut user = "Resumo anterior: ".to_string();
    user.append(resumo_atual);
    user.append("\n\nTrocas recentes:\n");
    user.append(juntar(partes.as_slice(), "\n").as_str());
    Pedido { system: SYSTEM_PROMPT.to_string(), user }
}

/// Limita os eixos e a quantidade de rótulos.
pub fn limitar_bounds(e: EstadoEmocional) -> (r: EstadoEmocional)
    ensures
        r@ == estado_limitado(e@),
{
    let mut tags = e.tags;
    tags.truncate(MAX_TAGS);
    proof {
        if e.tags@.len() > MAX_TAGS {
            assert(textos(tags@) =~= textos(e.tags@).take(MAX_TAGS as int));
        } else {
            assert(tags@ =~= e.tags@);
        }
    }
    EstadoEmocional {
        prazer: e.prazer.limitar(),
        ativacao: e.ativacao.limitar(),
        dominancia: e.dominancia.limitar(),
        confianca: e.confianca.limitar(),
        respeito: e.respeito.limitar(),
        afinidade: e.afinidade.limitar(),
        tags,
        lente_perceptiva: e.lente_perceptiva,
        motivacao_imediata: e.motivacao_imediata,
    }
}

/// O que passa a valer: nada, se a consulta falhou ou não se pôde ler; senão o
/// resumo novo e o estado dentro dos limites.
pub fn consolidar(resposta: Resposta<ConsolidacaoGerada>) -> (r: Option<ResultadoConsolidacao>)
    ensures
        match resposta {
            Resposta::Lida(g) => r is Some && r->0.resumo == g.resumo && r->0.estado_emocional@
                == estado_limitado(g.estado_emocional@),
            _ => r is None,
        },
{
    match resposta {
        Resposta::Lida(g) => Some(
            ResultadoConsolidacao {
                resumo: g.resumo,
                estado_emocional: limitar_bounds(g.estado_emocional),
            },
        ),
        Resposta::Falha => None,
        Resposta::Ilegivel => None,
    }
}

/// Os eixos do estado são números em `[-1, 1]`.
pub open spec fn eixos_no_intervalo(e: EstadoEmocionalView) -> bool {
    &&& e.prazer.no_intervalo()
    &&& e.ativacao.no_intervalo()
    &&& e.dominancia.no_intervalo()
    &&& e.confianca.no_intervalo()
    &&& e.respeito.no_intervalo()
    &&& e.afinidade.no_intervalo()
}

/// Os eixos do estado são números.
pub open spec fn eixos_sao_numeros(e: EstadoEmocionalView) -> bool {
    &&& !e.prazer.nao_numero()
    &&& !e.ativacao.nao_numero()
    &&& !e.dominancia.nao_numero()
    &&& !e.confianca.nao_numero()
    &&& !e.respeito.nao_numero()
    &&& !e.afinidade.nao_numero()
}

/// Um estado consolidado tem no máximo cinco rótulos e eixos em `[-1, 1]`, e
/// limitar de novo não muda nada.
pub proof fn lei_estado_limitado(e: EstadoEmocionalView)
    ensures
        estado_limitado(e).tags.len() <= MAX_TAGS,
        eixos_sao_numeros(e) ==> eixos_no_intervalo(estado_limitado(e)),
        eixos_no_intervalo(e) && e.tags.len() <= MAX_TAGS ==> estado_limitado(e) == e,
        estado_limitado(estado_limitado(e)) == estado_limitado(e),
{
}

/// Limitar um estado limita cada eixo por si, guarda os cinco primeiros rótulos
/// na ordem e não toca nos textos.
pub proof fn lei_limitar_campo_a_campo(e: EstadoEmocionalView)
    ensures
        ({
            let r = estado_limitado(e);
            &&& r.prazer == e.prazer.limitado()
            &&& r.ativacao == e.ativacao.limitado()
            &&& r.dominancia == e.dominancia.limitado()
            &&& r.confianca == e.confianca.limitado()
            &&& r.respeito == e.respeito.limitado()
            &&& r.afinidade == e.afinidade.limitado()
            &&& e.tags.len() <= 5 ==> r.tags == e.tags
            &&& e.tags.len() > 5 ==> r.tags.len() == 5
            &&& forall|i: int| 0 <= i < r.tags.len() ==> #[trigger] r.tags[i] == e.tags[i]
            &&& r.lente_perceptiva == e.lente_perceptiva
            &&& r.motivacao_imediata == e.motivacao_imediata
        }),
{
}

/// A entrada da consolidação começa pelo resumo e cresce uma troca por vez, na
/// ordem: o que o jogador disse, e o que o NPC respondeu com o seu nome.
pub proof fn lei_entrada_da_consolidacao(
    npc_nome: Seq<char>,
    resumo: Seq<char>,
    ts: Seq<(Seq<char>, Seq<char>)>,
    t: (Seq<char>, Seq<char>),
)
    ensures
        entrada_da_consolidacao(npc_nome, resumo, Seq::empty()) == "Resumo anterior: "@ + resumo
            + "\n\nTrocas recentes:\n"@,
        entrada_da_consolidacao(npc_nome, resumo, ts.push(t)) == entrada_da_consolidacao(
            npc_nome,
            resumo,
            ts,
        ) + (if ts.len() == 0 {
            Seq::empty()
        } else {
            "\n"@
        }) + ("Jogador: "@ + t.0 + "\n"@ + npc_nome + ": "@ + t.1),
{
    let linhas = linhas_das_trocas(ts, npc_nome);
    let linha = linha_da_troca(t, npc_nome);
    let cabeca = "Resumo anterior: "@ + resumo + "\n\nTrocas recentes:\n"@;
    assert(linhas_das_trocas(Seq::empty(), npc_nome) =~= Seq::<Seq<char>>::empty());
    assert(cabeca + Seq::<char>::empty() =~= cabeca);
    assert(linhas_das_trocas(ts.push(t), npc_nome) =~= linhas.push(linha));
    crate::texto::lema_juntado_parte(linhas, "\n"@, linha);
    if ts.len() == 0 {
        assert(linhas =~= Seq::<Seq<char>>::empty());
        assert(cabeca + linha =~= cabeca + Seq::<char>::empty() + Seq::<char>::empty() + linha);
    } else {
        assert(cabeca + (juntado(linhas, "\n"@) + "\n"@ + linha) =~= cabeca + juntado(
            linhas,
            "\n"@,
        ) + "\n"@ + linha);
    }
}

} // verus!
