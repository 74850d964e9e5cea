//! Guardrail de Saída: filtra o conteúdo narrativo antes de ele chegar ao
//! jogador. Uma reprovação pede nova revisão até o limite de tentativas; depois
//! dele entra uma frase neutra. Quando um teste de dados foi rolado no turno, a
//! mesma revisão confere que a narração não contradiz o resultado.

use crate::llm::{LlmClient, Pedido, Resposta};
use crate::skills::ResultadoDados;
use crate::texto::{decimal, escreve_decimal};
use vstd::prelude::*;

verus! {

/// As instruções do revisor.
pub const SYSTEM_PROMPT_BASE: &'static str = r#"Você é um revisor de conteúdo narrativo de um RPG de fantasia medieval.
Responda APENAS com um JSON no formato {"aprovado": true|false, "motivo": "..."}.
Reprove se houver: anacronismo (referências fora da época medieval/fantasia), antijogo (resolver o desafio pelo jogador), ou alucinação de estado (personagens mortos falando, itens inexistentes)."#;

/// Quantas vezes o mesmo texto é revisado.
pub const MAX_TENTATIVAS: u32 = 2;

/// O que o jogador lê quando nenhuma revisão aprovou o texto.
pub const TEXTO_NEUTRO: &'static str =
    "O narrador hesita por um momento, incapaz de descrever o que aconteceu com clareza.";

/// O que o revisor respondeu.
#[derive(Debug, Clone)]
pub struct Veredito {
    pub aprovado: bool,
    pub motivo: Option<String>,
}

/// O resultado de um teste, por extenso.
pub open spec fn palavra_do_resultado(sucesso: bool) -> Seq<char> {
    if sucesso {
        "SUCESSO"@
    } else {
        "FRACASSO"@
    }
}

/// As instruções do revisor para um turno.
pub open spec fn prompt_do_revisor(resultado: Option<ResultadoDados>) -> Seq<char> {
    match resultado {
        None => SYSTEM_PROMPT_BASE@,
        Some(r) => SYSTEM_PROMPT_BASE@
            + "\nUm teste de dados foi rolado para esta ação: rolagem "@ + decimal(
            r.rolagem as int,
        ) + " contra dificuldade "@ + decimal(r.dificuldade as int) + " → resultado "@
            + palavra_do_resultado(r.sucesso)
            + ". Reprove também se a narração contradisser esse resultado (ex: descrever sucesso quando o resultado foi fracasso, ou vice-versa)."@,
    }
}

/// O resultado emprestado, como valor.
pub open spec fn dados_vistos(r: Option<&ResultadoDados>) -> Option<ResultadoDados> {
    match r {
        Some(d) => Some(*d),
        None => None,
    }
}

/// O resultado de um teste, por extenso.
pub fn escreve_resultado(sucesso: bool) -> (r: &'static str)
    ensures
        r@ == palavra_do_resultado(sucesso),
{
    if sucesso {
        "SUCESSO"
    } else {
        "FRACASSO"
    }
}

/// Monta as instruções do revisor.
pub fn montar_system_prompt(resultado_dados: Option<&ResultadoDados>) -> (r: String)
    ensures
        r@ == prompt_do_revisor(dados_vistos(resultado_dados)),
{
    let mut s = SYSTEM_PROMPT_BASE.to_string();
    match resultado_dados {
        None => {},
        Some(r) => {
            s.append("\nUm teste de dados foi rolado para esta ação: rolagem ");
            s.append(escreve_decimal(r.rolagem as u64).as_str());
            s.append(" contra dificuldade ");
            s.append(escreve_decimal(r.dificuldade as u64).as_str());
            s.append(" → resultado ");
            s.append(escreve_resultado(r.sucesso));
            s.append(
                ". Reprove também se a narração contradisser esse resultado (ex: descrever sucesso quando o resultado foi fracasso, ou vice-versa).",
            );
        },
    }
    s
}

/// O Guardrail de Saída e o modelo que revisa.
#[derive(Debug)]
pub struct GuardrailSaida {
    pub llm: LlmClient,
}

/// Uma revisão em curso: o texto, as instruções do revisor e em que tentativa
/// ela está.
#[derive(Debug)]
pub struct Revisao {
    pub system: String,
    pub texto: String,
    pub tentativa: u32,
}

/// O que uma [`Revisao`] diz.
pub struct RevisaoView {
    pub system: Seq<char>,
    pub texto: Seq<char>,
    pub tentativa: u32,
}

impl View for Revisao {
    type V = RevisaoView;

    open spec fn view(&self) -> RevisaoView {
        RevisaoView { system: self.system@, texto: self.texto@, tentativa: self.tentativa }
    }
}

/// O que segue a uma resposta do revisor: perguntar de novo, ou o texto que
/// chega ao jogador.
#[derive(Debug)]
pub enum Passo {
    Perguntar(Revisao),
    Pronto(String),
}

/// O que um [`Passo`] diz.
pub enum PassoView {
    Perguntar(RevisaoView),
    Pronto(Seq<char>),
}

impl View for Passo {
    type V = PassoView;

    open spec fn view(&self) -> PassoView {
        match *self {
            Passo::Perguntar(r) => PassoView::Perguntar(r@),
            Passo::Pronto(t) => PassoView::Pronto(t@),
        }
    }
}

/// O revisor reprovou. Uma consulta que falhou, ou que não se pôde ler, não
/// reprova.
pub open spec fn reprova(resposta: Resposta<Veredito>) -> bool {
    match resposta {
        Resposta::Lida(v) => !v.aprovado,
        _ => false,
    }
}

/// O passo depois de uma resposta.
pub open spec fn passo(r: RevisaoView, reprovado: bool) -> PassoView {
    if !reprovado {
        PassoView::Pronto(r.texto)
    } else if r.tentativa < MAX_TENTATIVAS {
        PassoView::Perguntar(RevisaoView { tentativa: (r.tentativa + 1) as u32, ..r })
    } else {
        PassoView::Pronto(TEXTO_NEUTRO@)
    }
}

impl GuardrailSaida {
    pub fn new(llm: LlmClient) -> (g: GuardrailSaida)
        ensures
            g.llm == llm,
    {
        GuardrailSaida { llm }
    }

    /// Começa a revisão de um texto. `resultado_dados`, se há, é o resultado já
    /// rolado que a narração não pode contradizer.
    pub fn revisar(&self, texto_gerado: &str, resultado_dados: Option<&ResultadoDados>) -> (r:
        Revisao)
        ensures
            r@ == (RevisaoView {
                system: prompt_do_revisor(dados_vistos(resultado_dados)),
                texto: texto_gerado@,
                tentativa: 1,
            }),
    {
        Revisao {
            system: montar_system_prompt(resultado_dados),
            texto: texto_gerado.to_string(),
            tentativa: 1,
        }
    }
}

impl Revisao {
    /// A pergunta ao revisor.
    pub fn pedido(&self) -> (p: Pedido)
        ensures
            p.system@ == self@.system,
            p.user@ == self@.texto,
    {
        Pedido { system: self.system.clone(), user: self.texto.clone() }
    }

    /// O que segue à resposta do revisor.
    pub fn responder(self, resposta: &Resposta<Veredito>) -> (p: Passo)
        ensures
            p@ == passo(self@, reprova(*resposta)),
    {
        let reprovado = match resposta {
            Resposta::Lida(v) => !v.aprovado,
            Resposta::Falha => false,
            Resposta::Ilegivel => false,
        };
        if !reprovado {
            Passo::Pronto(self.texto)
        } else if self.tentativa < MAX_TENTATIVAS {
            Passo::Perguntar(
                Revisao {
                    system: self.system,
                    texto: self.texto,
                    tentativa: self.tentativa + 1,
                },
            )
        } else {
            Passo::Pronto(TEXTO_NEUTRO.to_string())
        }
    }
}

/// Onde a revisão está depois de uma sequência de respostas: as que vêm depois
/// do fim não contam.
pub open spec fn passo_apos(r: RevisaoView, reprovacoes: Seq<bool>) -> PassoView
    decreases reprovacoes.len(),
{
    if reprovacoes.len() == 0 {
        PassoView::Perguntar(r)
    } else {
        match passo(r, reprovacoes[0]) {
            PassoView::Pronto(t) => PassoView::Pronto(t),
            PassoView::Perguntar(q) => passo_apos(q, reprovacoes.drop_first()),
        }
    }
}

/// Uma revisão acaba em no máximo duas respostas: no texto como foi gerado,
/// salvo se as duas o reprovaram, quando acaba na frase neutra. O jogador
/// nunca lê outra coisa.
pub proof fn lei_revisao_acaba(system: Seq<char>, texto: Seq<char>, reprovacoes: Seq<bool>)
    requires
        reprovacoes.len() >= MAX_TENTATIVAS,
    ensures
        passo_apos(RevisaoView { system, texto, tentativa: 1 }, reprovacoes) == PassoView::Pronto(
            if reprovacoes[0] && reprovacoes[1] {
                TEXTO_NEUTRO@
            } else {
                texto
            },
        ),
{
    reveal_with_fuel(passo_apos, 3);
}

/// O que o jogador lê depois de revisto: o texto como foi gerado, salvo se duas
/// respostas lidas, seguidas, o reprovaram. Uma consulta que falha, ou que não se
/// lê, deixa passar; e é sempre o mesmo texto, com as mesmas instruções, que se
/// revê.
pub proof fn lei_o_que_o_jogador_le(
    r: RevisaoView,
    primeira: Resposta<Veredito>,
    segunda: Resposta<Veredito>,
)
    requires
        r.tentativa == 1,
    ensures
        ({
            let p1 = passo(r, reprova(primeira));
            let recusa1 = primeira matches Resposta::Lida(v) && !v.aprovado;
            let recusa2 = segunda matches Resposta::Lida(v) && !v.aprovado;
            &&& !recusa1 ==> p1 == PassoView::Pronto(r.texto)
            &&& recusa1 ==> {
                &&& p1 matches PassoView::Perguntar(q) && q.texto == r.texto && q.system == r.system
                &&& !recusa2 ==> passo(p1->Perguntar_0, reprova(segunda)) == PassoView::Pronto(
                    r.texto,
                )
                &&& recusa2 ==> passo(p1->Perguntar_0, reprova(segunda)) == PassoView::Pronto(
                    "O narrador hesita por um momento, incapaz de descrever o que aconteceu com clareza."@,
                )
            }
        }),
{
}

/// As instruções do revisor começam sempre pelas mesmas; com um teste rolado
/// dizem também a rolagem, a dificuldade e se foi sucesso ou fracasso.
pub proof fn lei_revisor_sabe_do_teste(r: ResultadoDados)
    ensures
        prompt_do_revisor(None) == SYSTEM_PROMPT_BASE@,
        prompt_do_revisor(Some(r)) == SYSTEM_PROMPT_BASE@
            + "\nUm teste de dados foi rolado para esta ação: rolagem "@ + decimal(
            r.rolagem as int,
        ) + " contra dificuldade "@ + decimal(r.dificuldade as int) + " → resultado "@ + (
        if r.sucesso {
            "SUCESSO"@
        } else {
            "FRACASSO"@
        })
            + ". Reprove também se a narração contradisser esse resultado (ex: descrever sucesso quando o resultado foi fracasso, ou vice-versa)."@,
{
}

} // verus!
