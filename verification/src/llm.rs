//! O gateway de modelos de linguagem: o que se pede e o que se entende da
//! resposta. A rede fica fora; aqui ficam a configuração, as mensagens de uma
//! conversa e a escolha da resposta.

use crate::state::trocas;
use vstd::prelude::*;

verus! {

/// O que chegou de uma consulta com saída estruturada: a chamada falhou, a
/// resposta não pôde ser lida, ou foi lida.
#[derive(Debug)]
pub enum Resposta<T> {
    Falha,
    Ilegivel,
    Lida(T),
}

/// Uma consulta: as instruções e a entrada.
#[derive(Debug)]
pub struct Pedido {
    pub system: String,
    pub user: String,
}

/// Uma mensagem de conversa.
#[derive(Debug)]
pub struct Mensagem {
    pub role: String,
    pub content: String,
}

/// O que uma [`Mensagem`] diz: o papel e o conteúdo.
pub open spec fn mensagem_vista(m: Mensagem) -> (Seq<char>, Seq<char>) {
    (m.role@, m.content@)
}

/// O que uma conversa diz.
pub open spec fn conversa_vista(ms: Seq<Mensagem>) -> Seq<(Seq<char>, Seq<char>)> {
    ms.map_values(|m: Mensagem| mensagem_vista(m))
}

/// As trocas anteriores, cada uma uma fala do usuário e uma do assistente.
pub open spec fn historico_em_mensagens(ts: Seq<(Seq<char>, Seq<char>)>) -> Seq<
    (Seq<char>, Seq<char>),
>
    decreases ts.len(),
{
    if ts.len() == 0 {
        Seq::empty()
    } else {
        historico_em_mensagens(ts.drop_last()).push(("user"@, ts.last().0)).push(
            ("assistant"@, ts.last().1),
        )
    }
}

/// A conversa: as instruções, as trocas anteriores, a entrada de agora.
pub open spec fn conversa(
    system: Seq<char>,
    historico: Seq<(Seq<char>, Seq<char>)>,
    user: Seq<char>,
) -> Seq<(Seq<char>, Seq<char>)> {
    (seq![("system"@, system)] + historico_em_mensagens(historico)).push(("user"@, user))
}

proof fn lema_historico(ts: Seq<(Seq<char>, Seq<char>)>)
    ensures
        historico_em_mensagens(ts).len() == 2 * ts.len(),
        forall|i: int|
            0 <= i < ts.len() ==> historico_em_mensagens(ts)[2 * i] == ("user"@, (
            #[trigger] ts[i]).0) && historico_em_mensagens(ts)[2 * i + 1] == (
                "assistant"@,
                ts[i].1,
            ),
    decreases ts.len(),
{
    if ts.len() > 0 {
        let antes = ts.drop_last();
        lema_historico(antes);
        assert forall|i: int| 0 <= i < ts.len() implies historico_em_mensagens(ts)[2 * i] == (
            "user"@,
            (#[trigger] ts[i]).0,
        ) && historico_em_mensagens(ts)[2 * i + 1] == ("assistant"@, ts[i].1) by {
            if i < antes.len() {
                assert(antes[i] == ts[i]);
            }
        }
    }
}

/// A conversa começa pelas instruções, acaba na entrada de agora, e entre elas
/// cada troca anterior é uma fala do usuário seguida da resposta, na ordem.
pub proof fn lei_conversa_em_ordem(
    system: Seq<char>,
    historico: Seq<(Seq<char>, Seq<char>)>,
    user: Seq<char>,
)
    ensures
        conversa(system, historico, user).len() == 2 * historico.len() + 2,
        conversa(system, historico, user)[0] == ("system"@, system),
        conversa(system, historico, user).last() == ("user"@, user),
        forall|i: int|
            0 <= i < historico.len() ==> conversa(system, historico, user)[2 * i + 1] == (
                "user"@,
                (#[trigger] historico[i]).0,
            ) && conversa(system, historico, user)[2 * i + 2] == ("assistant"@, historico[i].1),
{
    lema_historico(historico);
}

fn mensagem(role: &str, content: &str) -> (m: Mensagem)
    ensures
        mensagem_vista(m) == (role@, content@),
{
    Mensagem { role: role.to_string(), content: content.to_string() }
}

/// A conversa a enviar. Sem trocas anteriores são só as instruções e a
/// entrada.
pub fn montar_conversa(system: &str, historico: &[(String, String)], user: &str) -> (r: Vec<
    Mensagem,
>)
    ensures
        conversa_vista(r@) == conversa(system@, trocas(historico@), user@),
{
    let ghost ts = trocas(historico@);
    let mut r: Vec<Mensagem> = Vec::new();
    r.push(mensagem("system", system));
    let mut i: usize = 0;
    proof {
        assert(conversa_vista(r@) =~= seq![("system"@, system@)] + historico_em_mensagens(
            ts.take(0),
        ));
    }
    while i < historico.len()
        invariant
            i <= historico@.len(),
            ts == trocas(historico@),
            conversa_vista(r@) == seq![("system"@, system@)] + historico_em_mensagens(
                ts.take(i as int),
            ),
        decreases historico@.len() - i,
    {
        let ghost antes = r@;
        r.push(mensagem("user", historico[i].0.as_str()));
        r.push(mensagem("assistant", historico[i].1.as_str()));
        proof {
            let agora = ts.take(i + 1);
            assert(agora.drop_last() =~= ts.take(i as int));
            assert(agora.last() == (historico@[i as int].0@, historico@[i as int].1@));
            assert(conversa_vista(r@) =~= conversa_vista(antes).push(
                ("user"@, agora.last().0),
            ).push(("assistant"@, agora.last().1)));
            assert(conversa_vista(r@) =~= seq![("system"@, system@)] + historico_em_mensagens(
                agora,
            ));
        }
        i += 1;
    }
    assert(ts.take(i as int) =~= ts);
    let ghost antes = r@;
    r.push(mensagem("user", user));
    assert(conversa_vista(r@) =~= conversa_vista(antes).push(("user"@, user@)));
    r
}

/// Onde e como falar com o gateway.
#[derive(Debug, Clone)]
pub struct LlmClient {
    pub base_url: String,
    pub api_key: String,
    pub model: String,
}

/// O texto dado, ou o padrão.
pub open spec fn ou_padrao(dado: Option<Seq<char>>, padrao: Seq<char>) -> Seq<char> {
    match dado {
        Some(s) => s,
        None => padrao,
    }
}

fn valor_ou_padrao(dado: Option<String>, padrao: &str) -> (r: String)
    ensures
        r@ == ou_padrao(crate::state::texto_opcional(dado), padrao@),
{
    match dado {
        Some(s) => s,
        None => padrao.to_string(),
    }
}

impl LlmClient {
    /// A configuração que as variáveis de ambiente dão, com os valores de
    /// desenvolvimento local para as que faltam.
    pub fn from_env(url: Option<String>, chave: Option<String>, modelo: Option<String>) -> (c:
        LlmClient)
        ensures
            c.base_url@ == ou_padrao(crate::state::texto_opcional(url), "http://localhost:4000"@),
            c.api_key@ == ou_padrao(crate::state::texto_opcional(chave), "sk-airpg-local-dev"@),
            c.model@ == ou_padrao(crate::state::texto_opcional(modelo), "airpg-local"@),
    {
        LlmClient {
            base_url: valor_ou_padrao(url, "http://localhost:4000"),
            api_key: valor_ou_padrao(chave, "sk-airpg-local-dev"),
            model: valor_ou_padrao(modelo, "airpg-local"),
        }
    }

    /// O endereço das conversas.
    pub fn endereco(&self) -> (r: String)
        ensures
            r@ == self.base_url@ + "/chat/completions"@,
    {
        let mut r = self.base_url.clone();
        r.append("/chat/completions");
        r
    }

    /// A resposta entre as que o gateway ofereceu: a primeira, ou nada.
    pub fn complete(escolhas: &[String]) -> (r: String)
        ensures
            r@ == (if escolhas@.len() > 0 {
                escolhas@[0]@
            } else {
                Seq::<char>::empty()
            }),
    {
        if escolhas.len() > 0 {
            escolhas[0].clone()
        } else {
            String::new()
        }
    }
}

} // verus!
