//! Consistência da economia: ganhar um item cujo preço é conhecido e pagar por
//! ele andam juntos. Quando uma lista de propostas quebra isso, o Mestre de
//! Jogo é chamado de novo para reescrevê-la; as regras nunca inventam a
//! correção.

use super::{propostas_vistas, trata_de, MudancaProposta, PropostaView};
use crate::llm::{Pedido, Resposta};
use crate::state::{fichas_ref, Npc, NpcView};
use crate::tabela::{
    lema_pares_com, lema_posicao_do_nome, mapa_dos_pares, nomes_distintos, pares_com,
    posicao_do_nome, Tabela,
};
use crate::texto::{
    decimal, escreve_decimal, lema_tem_meio, mesmo_texto, tem_trecho,
};
use crate::valor::ValorView;
use vstd::prelude::*;

verus! {

/// As instruções de quem propõe mudanças de estado.
pub const SYSTEM_PROMPT: &'static str = r#"Você é o sistema de regras de um RPG de fantasia medieval. Dado o que aconteceu no turno, decida se algo do ESTADO DO JOGO deve mudar de fato.
Responda APENAS com um JSON no formato {"mudancas": [{"campo": "...", "operacao": "...", "valor": ..., "categoria": "..."}]}.
Se nada mudou mecanicamente, responda {"mudancas": []} — a maioria dos turnos não muda nada, diálogo comum NUNCA é motivo de mudança.
Campos permitidos e suas operações:
- "player.hp" com operacao "somar" e valor um número inteiro (negativo para dano, positivo para cura)
- "player.moedas" com operacao "somar" e valor um número inteiro (negativo para gastar/pagar, positivo para ganhar/receber)
- "player.inventario" com operacao "adicionar" ou "remover" e valor uma string (nome do item). Ao "adicionar" um item, informe também "categoria": uma string curta e livre classificando o item (ex: "arma", "consumivel", "material", "missao") — se não souber classificar, use uma string vazia. Se o item foi COMPRADO de um vendedor, inclua TAMBÉM uma mudança separada em "player.moedas" com o valor pago (negativo) — ganhar um item sem essa contrapartida só é válido se o texto deixar claro que foi de graça, recompensa, achado ou roubado
- "player.location_id" com operacao "definir" e valor uma string curta em snake_case identificando o novo local (ex: "floresta_negra"), só se o jogador CLARAMENTE se deslocou para outro lugar (andou até, viajou para, entrou em)
Só proponha uma mudança se o texto deixar EXPLÍCITO que algo foi ganho, perdido, causou dano, curou, ou que o jogador se moveu de local. Nunca invente itens, dano ou destinos que não foram mencionados."#;

// ---------------------------------------------------------------------------
// Modelo
// ---------------------------------------------------------------------------

/// Os pares de `base` com os de `novos` postos por cima, na ordem.
pub open spec fn sobrepostos(
    base: Seq<(Seq<char>, u32)>,
    novos: Seq<(Seq<char>, u32)>,
) -> Seq<(Seq<char>, u32)>
    decreases novos.len(),
{
    if novos.len() == 0 {
        base
    } else {
        pares_com(sobrepostos(base, novos.drop_last()), novos.last().0, novos.last().1)
    }
}

/// Os preços que algum NPC presente pratica; de um item com dois preços vale o
/// do último NPC.
pub open spec fn precos_conhecidos(npcs: Seq<NpcView>) -> Seq<(Seq<char>, u32)>
    decreases npcs.len(),
{
    if npcs.len() == 0 {
        Seq::empty()
    } else {
        sobrepostos(precos_conhecidos(npcs.drop_last()), npcs.last().precos)
    }
}

/// O preço de um item numa lista de pares.
pub open spec fn preco_de(pares: Seq<(Seq<char>, u32)>, item: Seq<char>) -> Option<u32> {
    match posicao_do_nome(pares, item, 0) {
        Some(i) => Some(pares[i].1),
        None => None,
    }
}

/// O valor da primeira proposta sobre as moedas, a partir de `de`, se é um
/// inteiro.
pub open spec fn moedas_propostas(ms: Seq<PropostaView>, de: int) -> Option<i64>
    decreases ms.len() - de,
{
    if de >= ms.len() {
        None
    } else if trata_de(ms[de], "player.moedas"@, "somar"@) {
        ms[de].valor.inteiro()
    } else {
        moedas_propostas(ms, de + 1)
    }
}

/// O item que uma proposta acrescenta ao inventário.
pub open spec fn item_ganho(m: PropostaView) -> Option<Seq<char>> {
    if trata_de(m, "player.inventario"@, "adicionar"@) {
        m.valor.texto()
    } else {
        None
    }
}

/// O primeiro item ganho, a partir de `de`, cujo preço é conhecido.
pub open spec fn ganho_com_preco(
    ms: Seq<PropostaView>,
    precos: Seq<(Seq<char>, u32)>,
    de: int,
) -> Option<(Seq<char>, u32)>
    decreases ms.len() - de,
{
    if de >= ms.len() {
        None
    } else {
        match item_ganho(ms[de]) {
            Some(item) => match preco_de(precos, item) {
                Some(preco) => Some((item, preco)),
                None => ganho_com_preco(ms, precos, de + 1),
            },
            None => ganho_com_preco(ms, precos, de + 1),
        }
    }
}

/// Alguma proposta acrescenta este item.
pub open spec fn ganha(ms: Seq<PropostaView>, item: Seq<char>) -> bool {
    exists|i: int| 0 <= i < ms.len() && item_ganho(#[trigger] ms[i]) == Some(item)
}

/// O primeiro item, a partir de `de`, que custa `preco`.
pub open spec fn item_a_este_preco(pares: Seq<(Seq<char>, u32)>, preco: int, de: int) -> Option<
    Seq<char>,
>
    decreases pares.len() - de,
{
    if de >= pares.len() {
        None
    } else if pares[de].1 == preco {
        Some(pares[de].0)
    } else {
        item_a_este_preco(pares, preco, de + 1)
    }
}

/// Alguma proposta acrescenta um item que custa `preco`.
pub open spec fn ganha_a_este_preco(
    ms: Seq<PropostaView>,
    pares: Seq<(Seq<char>, u32)>,
    preco: int,
) -> bool {
    exists|i: int|
        0 <= i < pares.len() && (#[trigger] pares[i]).1 == preco && ganha(ms, pares[i].0)
}

/// O nome do primeiro NPC, a partir de `de`, que vende o item.
pub open spec fn vendedor_do_item(npcs: Seq<NpcView>, item: Seq<char>, de: int) -> Seq<char>
    decreases npcs.len() - de,
{
    if de >= npcs.len() {
        "o vendedor"@
    } else if preco_de(npcs[de].precos, item) is Some {
        npcs[de].nome
    } else {
        vendedor_do_item(npcs, item, de + 1)
    }
}

/// O nome do primeiro NPC, a partir de `de`, que vende o item a este preço.
pub open spec fn vendedor_ao_preco(
    npcs: Seq<NpcView>,
    item: Seq<char>,
    preco: u32,
    de: int,
) -> Seq<char>
    decreases npcs.len() - de,
{
    if de >= npcs.len() {
        "o vendedor"@
    } else if preco_de(npcs[de].precos, item) == Some(preco) {
        npcs[de].nome
    } else {
        vendedor_ao_preco(npcs, item, preco, de + 1)
    }
}

/// O pedido de correção quando um item com preço foi ganho sem pagamento.
pub open spec fn aviso_sem_pagamento(
    contexto: Seq<char>,
    item: Seq<char>,
    preco: u32,
    vendedor: Seq<char>,
) -> Seq<char> {
    contexto + "\n\nATENÇÃO: você propôs que o jogador ganhasse \""@ + item + "\", que custa "@
        + decimal(preco as int) + " moedas na loja de "@ + vendedor
        + ". Isso só é válido se o texto acima deixa claro que foi de graça, recompensa, achado ou roubado. Reescreva a lista de mudanças: se foi uma compra normal, inclua também {\"campo\": \"player.moedas\", \"operacao\": \"somar\", \"valor\": -"@
        + decimal(preco as int)
        + "}. Se não houve pagamento nem justificativa clara no texto original, remova a proposta de ganhar \""@
        + item + "\"."@
}

/// O pedido de correção quando o valor pago não é o preço do item.
pub open spec fn aviso_preco_fixo(
    contexto: Seq<char>,
    item: Seq<char>,
    preco: u32,
    vendedor: Seq<char>,
) -> Seq<char> {
    contexto + "\n\nATENÇÃO: \""@ + item + "\" tem preço FIXO de "@ + decimal(preco as int)
        + " moedas na loja de "@ + vendedor
        + " — o preço não é negociável nem decidido pela narração. Reescreva a lista de mudanças usando exatamente {\"campo\": \"player.moedas\", \"operacao\": \"somar\", \"valor\": -"@
        + decimal(preco as int) + "} para o pagamento."@
}

/// O pedido de correção quando o preço exato de um item foi pago e o item não
/// foi ganho.
pub open spec fn aviso_sem_item(
    contexto: Seq<char>,
    item: Seq<char>,
    preco: u32,
    vendedor: Seq<char>,
) -> Seq<char> {
    contexto + "\n\nATENÇÃO: você propôs debitar "@ + decimal(preco as int)
        + " moedas do jogador — valor que corresponde exatamente ao preço de \""@ + item
        + "\" cobrado por "@ + vendedor + " — mas não incluiu a proposta de adicionar \""@ + item
        + "\" ao inventário do jogador. Reescreva a lista de mudanças incluindo também {\"campo\": \"player.inventario\", \"operacao\": \"adicionar\", \"valor\": \""@
        + item
        + "\", \"categoria\": \"consumivel\"}, a menos que o texto deixe claro que o pagamento foi por outro motivo (ex: multa, aluguel, gorjeta) e não por esse item."@
}

/// As moedas que um débito tira.
pub open spec fn valor_pago(v: i64) -> int {
    -v
}

/// O pedido de correção de um pagamento sem item, se é o caso: o preço exato de
/// algum item foi pago, e nenhum item a esse preço foi ganho.
pub open spec fn correcao_do_pagamento(
    contexto: Seq<char>,
    npcs: Seq<NpcView>,
    ms: Seq<PropostaView>,
) -> Option<Seq<char>> {
    match moedas_propostas(ms, 0) {
        Some(v) => if v < 0 {
            let preco = valor_pago(v);
            match item_a_este_preco(precos_conhecidos(npcs), preco, 0) {
                Some(item) => if ganha_a_este_preco(ms, precos_conhecidos(npcs), preco) {
                    None
                } else {
                    Some(
                        aviso_sem_item(
                            contexto,
                            item,
                            preco as u32,
                            vendedor_ao_preco(npcs, item, preco as u32, 0),
                        ),
                    )
                },
                None => None,
            }
        } else {
            None
        },
        None => None,
    }
}

/// O pedido de correção de uma lista de propostas, se ela precisa de uma.
pub open spec fn correcao(
    contexto: Seq<char>,
    npcs: Seq<NpcView>,
    ms: Seq<PropostaView>,
) -> Option<Seq<char>> {
    let precos = precos_conhecidos(npcs);
    if precos.len() == 0 {
        None
    } else {
        match ganho_com_preco(ms, precos, 0) {
            Some(g) => match moedas_propostas(ms, 0) {
                None => Some(
                    aviso_sem_pagamento(contexto, g.0, g.1, vendedor_do_item(npcs, g.0, 0)),
                ),
                Some(v) => if v != -(g.1 as int) {
                    Some(aviso_preco_fixo(contexto, g.0, g.1, vendedor_do_item(npcs, g.0, 0)))
                } else {
                    correcao_do_pagamento(contexto, npcs, ms)
                },
            },
            None => correcao_do_pagamento(contexto, npcs, ms),
        }
    }
}

// ---------------------------------------------------------------------------
// Execução
// ---------------------------------------------------------------------------

fn reunir_precos(npcs: &[&Npc]) -> (t: Tabela<u32>)
    ensures
        t.pares() == precos_conhecidos(fichas_ref(npcs@)),
{
    let ghost vs = fichas_ref(npcs@);
    let mut t: Tabela<u32> = Tabela::new();
    let mut i: usize = 0;
    assert(vs.take(0) =~= Seq::<NpcView>::empty());
    while i < npcs.len()
        invariant
            i <= npcs@.len(),
            vs == fichas_ref(npcs@),
            t.pares() == precos_conhecidos(vs.take(i as int)),
        decreases npcs@.len() - i,
    {
        let npc: &Npc = npcs[i];
        let ghost base = t.pares();
        let ghost novos = npc.precos.pares();
        let mut j: usize = 0;
        assert(novos.take(0) =~= Seq::<(Seq<char>, u32)>::empty());
        while j < npc.precos.len()
            invariant
                j <= novos.len(),
                novos == npc.precos.pares(),
                t.pares() == sobrepostos(base, novos.take(j as int)),
            decreases novos.len() - j,
        {
            let nome = npc.precos.nome(j);
            let preco: u32 = *npc.precos.valor(j);
            proof {
                let agora = novos.take(j + 1);
                assert(agora.drop_last() =~= novos.take(j as int));
                assert(agora.last() == novos[j as int]);
            }
            t = t.com(nome, preco);
            j += 1;
        }
        proof {
            assert(novos.take(j as int) =~= novos);
            let agora = vs.take(i + 1);
            assert(agora.drop_last() =~= vs.take(i as int));
            assert(agora.last() == npc@);
        }
        i += 1;
    }
    assert(vs.take(i as int) =~= vs);
    t
}

fn preco_na_tabela(t: &Tabela<u32>, item: &str) -> (r: Option<u32>)
    ensures
        r == preco_de(t.pares(), item@),
{
    proof {
        lema_posicao_do_nome(t.pares(), item@, 0);
    }
    match t.get(item) {
        Some(p) => Some(*p),
        None => None,
    }
}

fn moedas_na_lista(propostas: &[MudancaProposta]) -> (r: Option<i64>)
    ensures
        r == moedas_propostas(propostas_vistas(propostas@), 0),
{
    let ghost ms = propostas_vistas(propostas@);
    let mut i: usize = 0;
    while i < propostas.len()
        invariant
            i <= propostas@.len(),
            ms == propostas_vistas(propostas@),
            moedas_propostas(ms, 0) == moedas_propostas(ms, i as int),
        decreases propostas@.len() - i,
    {
        let p = &propostas[i];
        assert(ms[i as int] == p@);
        if mesmo_texto(p.campo.as_str(), "player.moedas") && mesmo_texto(
            p.operacao.as_str(),
            "somar",
        ) {
            return p.valor.as_i64();
        }
        i += 1;
    }
    None
}

fn item_na_proposta(p: &MudancaProposta) -> (r: Option<&str>)
    ensures
        match r {
            Some(s) => item_ganho(p@) == Some(s@),
            None => item_ganho(p@) is None,
        },
{
    if mesmo_texto(p.campo.as_str(), "player.inventario") && mesmo_texto(
        p.operacao.as_str(),
        "adicionar",
    ) {
        p.valor.as_str()
    } else {
        None
    }
}

fn ganho_na_lista<'a>(propostas: &'a [MudancaProposta], precos: &Tabela<u32>) -> (r: Option<
    (&'a str, u32),
>)
    ensures
        match r {
            Some(g) => ganho_com_preco(propostas_vistas(propostas@), precos.pares(), 0) == Some(
                (g.0@, g.1),
            ),
            None => ganho_com_preco(propostas_vistas(propostas@), precos.pares(), 0) is None,
        },
{
    let ghost ms = propostas_vistas(propostas@);
    let mut i: usize = 0;
    while i < propostas.len()
        invariant
            i <= propostas@.len(),
            ms == propostas_vistas(propostas@),
            ganho_com_preco(ms, precos.pares(), 0) == ganho_com_preco(
                ms,
                precos.pares(),
                i as int,
            ),
        decreases propostas@.len() - i,
    {
        assert(ms[i as int] == propostas@[i as int]@);
        match item_na_proposta(&propostas[i]) {
            Some(item) => match preco_na_tabela(precos, item) {
                Some(preco) => {
                    return Some((item, preco));
                },
                None => {},
            },
            None => {},
        }
        i += 1;
    }
    None
}

fn ganha_na_lista(propostas: &[MudancaProposta], item: &str) -> (r: bool)
    ensures
        r == ganha(propostas_vistas(propostas@), item@),
{
    let ghost ms = propostas_vistas(propostas@);
    let mut i: usize = 0;
    while i < propostas.len()
        invariant
            i <= propostas@.len(),
            ms == propostas_vistas(propostas@),
            forall|j: int| 0 <= j < i ==> item_ganho(#[trigger] ms[j]) != Some(item@),
        decreases propostas@.len() - i,
    {
        assert(ms[i as int] == propostas@[i as int]@);
        match item_na_proposta(&propostas[i]) {
            Some(este) => if mesmo_texto(este, item) {
                return true;
            },
            None => {},
        }
        i += 1;
    }
    false
}

fn ganha_na_tabela(propostas: &[MudancaProposta], precos: &Tabela<u32>, preco: i128) -> (r: bool)
    ensures
        r == ganha_a_este_preco(propostas_vistas(propostas@), precos.pares(), preco as int),
{
    let ghost ms = propostas_vistas(propostas@);
    let ghost pares = precos.pares();
    let mut i: usize = 0;
    while i < precos.len()
        invariant
            i <= pares.len(),
            pares == precos.pares(),
            ms == propostas_vistas(propostas@),
            forall|j: int|
                0 <= j < i ==> !((#[trigger] pares[j]).1 == preco && ganha(ms, pares[j].0)),
        decreases pares.len() - i,
    {
        if *precos.valor(i) as i128 == preco && ganha_na_lista(propostas, precos.nome(i)) {
            assert(pares[i as int].1 == preco && ganha(ms, pares[i as int].0));
            return true;
        }
        i += 1;
    }
    false
}

fn item_na_tabela(precos: &Tabela<u32>, preco: i128) -> (r: Option<&str>)
    ensures
        match r {
            Some(s) => item_a_este_preco(precos.pares(), preco as int, 0) == Some(s@) && 0 <= preco
                <= u32::MAX,
            None => item_a_este_preco(precos.pares(), preco as int, 0) is None,
        },
{
    let mut i: usize = 0;
    while i < precos.len()
        invariant
            i <= precos.pares().len(),
            item_a_este_preco(precos.pares(), preco as int, 0) == item_a_este_preco(
                precos.pares(),
                preco as int,
                i as int,
            ),
        decreases precos.pares().len() - i,
    {
        if *precos.valor(i) as i128 == preco {
            return Some(precos.nome(i));
        }
        i += 1;
    }
    None
}

fn vendedor_na_lista<'a>(npcs: &[&'a Npc], item: &str) -> (r: &'a str)
    ensures
        r@ == vendedor_do_item(fichas_ref(npcs@), item@, 0),
{
    let ghost vs = fichas_ref(npcs@);
    let mut i: usize = 0;
    while i < npcs.len()
        invariant
            i <= npcs@.len(),
            vs == fichas_ref(npcs@),
            vendedor_do_item(vs, item@, 0) == vendedor_do_item(vs, item@, i as int),
        decreases npcs@.len() - i,
    {
        let npc: &Npc = npcs[i];
        assert(vs[i as int] == npc@);
        if preco_na_tabela(&npc.precos, item).is_some() {
            return npc.nome.as_str();
        }
        i += 1;
    }
    "o vendedor"
}

fn vendedor_com_preco<'a>(npcs: &[&'a Npc], item: &str, preco: u32) -> (r: &'a str)
    ensures
        r@ == vendedor_ao_preco(fichas_ref(npcs@), item@, preco, 0),
{
    let ghost vs = fichas_ref(npcs@);
    let mut i: usize = 0;
    while i < npcs.len()
        invariant
            i <= npcs@.len(),
            vs == fichas_ref(npcs@),
            vendedor_ao_preco(vs, item@, preco, 0) == vendedor_ao_preco(
                vs,
                item@,
                preco,
                i as int,
            ),
        decreases npcs@.len() - i,
    {
        let npc: &Npc = npcs[i];
        assert(vs[i as int] == npc@);
        match preco_na_tabela(&npc.precos, item) {
            Some(p) => if p == preco {
                return npc.nome.as_str();
            },
            None => {},
        }
        i += 1;
    }
    "o vendedor"
}

fn escrever_sem_pagamento(contexto: &str, item: &str, preco: u32, vendedor: &str) -> (r: String)
    ensures
        r@ == aviso_sem_pagamento(contexto@, item@, preco, vendedor@),
{
    let numero = escreve_decimal(preco as u64);
    let mut r = contexto.to_string();
    r.append("\n\nATENÇÃO: você propôs que o jogador ganhasse \"");
    r.append(item);
    r.append("\", que custa ");
    r.append(numero.as_str());
    r.append(" moedas na loja de ");
    r.append(vendedor);
    r.append(". Isso só é válido se o texto acima deixa claro que foi de graça, recompensa, achado ou roubado. Reescreva a lista de mudanças: se foi uma compra normal, inclua também {\"campo\": \"player.moedas\", \"operacao\": \"somar\", \"valor\": -");
    r.append(numero.as_str());
    r.append("}. Se não houve pagamento nem justificativa clara no texto original, remova a proposta de ganhar \"");
    r.append(item);
    r.append("\".");
    r
}

fn escrever_preco_fixo(contexto: &str, item: &str, preco: u32, vendedor: &str) -> (r: String)
    ensures
        r@ == aviso_preco_fixo(contexto@, item@, preco, vendedor@),
{
    let numero = escreve_decimal(preco as u64);
    let mut r = contexto.to_string();
    r.append("\n\nATENÇÃO: \"");
    r.append(item);
    r.append("\" tem preço FIXO de ");
    r.append(numero.as_str());
    r.append(" moedas na loja de ");
    r.append(vendedor);
    r.append(" — o preço não é negociável nem decidido pela narração. Reescreva a lista de mudanças usando exatamente {\"campo\": \"player.moedas\", \"operacao\": \"somar\", \"valor\": -");
    r.append(numero.as_str());
    r.append("} para o pagamento.");
    r
}

fn escrever_sem_item(contexto: &str, item: &str, preco: u32, vendedor: &str) -> (r: String)
    ensures
        r@ == aviso_sem_item(contexto@, item@, preco, vendedor@),
{
    let numero = escreve_decimal(preco as u64);
    let mut r = contexto.to_string();
    r.append("\n\nATENÇÃO: você propôs debitar ");
    r.append(numero.as_str());
    r.append(" moedas do jogador — valor que corresponde exatamente ao preço de \"");
    r.append(item);
    r.append("\" cobrado por ");
    r.append(vendedor);
    r.append(" — mas não incluiu a proposta de adicionar \"");
    r.append(item);
    r.append("\" ao inventário do jogador. Reescreva a lista de mudanças incluindo também {\"campo\": \"player.inventario\", \"operacao\": \"adicionar\", \"valor\": \"");
    r.append(item);
    r.append("\", \"categoria\": \"consumivel\"}, a menos que o texto deixe claro que o pagamento foi por outro motivo (ex: multa, aluguel, gorjeta) e não por esse item.");
    r
}

/// O que fazer com uma lista de propostas: ficar com ela, ou pedir outra.
#[derive(Debug)]
pub enum Decisao {
    Aceitar(Vec<MudancaProposta>),
    Refazer(Pedido),
}

/// As propostas que uma resposta traz, se foi lida.
pub open spec fn propostas_lidas(resposta: Resposta<Vec<MudancaProposta>>) -> Seq<
    MudancaProposta,
> {
    match resposta {
        Resposta::Lida(v) => v@,
        _ => Seq::empty(),
    }
}

/// A decisão que cabe a uma lista de propostas: ficar com ela se nada há a
/// corrigir, senão consultar de novo com o pedido de correção.
pub open spec fn decide(
    contexto: Seq<char>,
    npcs: Seq<NpcView>,
    propostas: Seq<MudancaProposta>,
    d: Decisao,
) -> bool {
    match correcao(contexto, npcs, propostas_vistas(propostas)) {
        None => d matches Decisao::Aceitar(v) && v@ == propostas,
        Some(t) => d matches Decisao::Refazer(p) && p.system@ == SYSTEM_PROMPT@ && p.user@ == t,
    }
}

impl Decisao {
    /// A lista com que o turno fica, dada a resposta à consulta de correção, se
    /// houve uma: a lista aceita, ou as propostas dessa resposta como vierem.
    pub open spec fn conclusao(self, segunda: Option<Resposta<Vec<MudancaProposta>>>) -> Seq<
        MudancaProposta,
    > {
        match self {
            Decisao::Aceitar(v) => v@,
            Decisao::Refazer(_) => match segunda {
                Some(resposta) => propostas_lidas(resposta),
                None => Seq::empty(),
            },
        }
    }

    /// A consulta de correção que falta fazer, se falta.
    pub fn consulta(&self) -> (r: Option<&Pedido>)
        ensures
            match *self {
                Decisao::Aceitar(_) => r is None,
                Decisao::Refazer(p) => r == Some(&p),
            },
    {
        match self {
            Decisao::Aceitar(_) => None,
            Decisao::Refazer(p) => Some(p),
        }
    }

    /// Fecha a lista do turno. A resposta à correção não é conferida de novo, e
    /// uma correção sem resposta não propõe nada.
    pub fn concluir(self, segunda: Option<Resposta<Vec<MudancaProposta>>>) -> (r: Vec<
        MudancaProposta,
    >)
        ensures
            r@ == self.conclusao(segunda),
    {
        match self {
            Decisao::Aceitar(v) => v,
            Decisao::Refazer(_) => match segunda {
                Some(resposta) => propor_mudancas(resposta),
                None => Vec::new(),
            },
        }
    }
}

/// O pedido de propostas para um turno.
pub fn pedido_de_mudancas(contexto: &str) -> (p: Pedido)
    ensures
        p.system@ == SYSTEM_PROMPT@,
        p.user@ == contexto@,
{
    Pedido { system: SYSTEM_PROMPT.to_string(), user: contexto.to_string() }
}

/// As propostas que uma resposta traz: uma consulta que falhou ou não pôde ser
/// lida não propõe nada.
pub fn propor_mudancas(resposta: Resposta<Vec<MudancaProposta>>) -> (r: Vec<MudancaProposta>)
    ensures
        r@ == propostas_lidas(resposta),
{
    match resposta {
        Resposta::Lida(v) => v,
        Resposta::Falha => Vec::new(),
        Resposta::Ilegivel => Vec::new(),
    }
}

/// Confere uma lista de propostas contra os preços dos NPCs presentes: aceita
/// a lista como está, ou pede ao Mestre de Jogo que a reescreva, dizendo o que
/// não fecha.
pub fn propor_e_validar(
    contexto: &str,
    npcs_presentes: &[&Npc],
    propostas: Vec<MudancaProposta>,
) -> (r: Decisao)
    ensures
        decide(contexto@, fichas_ref(npcs_presentes@), propostas@, r),
{
    let precos = reunir_precos(npcs_presentes);
    if precos.len() == 0 {
        return Decisao::Aceitar(propostas);
    }
    let moedas: Option<i64> = moedas_na_lista(propostas.as_slice());
    match ganho_na_lista(propostas.as_slice(), &precos) {
        Some(ganho) => {
            let vendedor = vendedor_na_lista(npcs_presentes, ganho.0);
            match moedas {
                None => {
                    let aviso = escrever_sem_pagamento(contexto, ganho.0, ganho.1, vendedor);
                    return Decisao::Refazer(pedido_de_mudancas(aviso.as_str()));
                },
                Some(v) => if v != -(ganho.1 as i64) {
                    let aviso = escrever_preco_fixo(contexto, ganho.0, ganho.1, vendedor);
                    return Decisao::Refazer(pedido_de_mudancas(aviso.as_str()));
                },
            }
        },
        None => {},
    }
    match moedas {
        Some(v) => if v < 0 {
            let total: i128 = -(v as i128);
            match item_na_tabela(&precos, total) {
                Some(item) => if !ganha_na_tabela(propostas.as_slice(), &precos, total) {
                    let pago: u32 = total as u32;
                    let vendedor = vendedor_com_preco(npcs_presentes, item, pago);
                    let aviso = escrever_sem_item(contexto, item, pago, vendedor);
                    return Decisao::Refazer(pedido_de_mudancas(aviso.as_str()));
                },
                None => {},
            }
        },
        None => {},
    }
    Decisao::Aceitar(propostas)
}

// ---------------------------------------------------------------------------
// Leis
// ---------------------------------------------------------------------------

/// Sem preço conhecido nenhuma lista é recusada.
pub proof fn lei_sem_precos(contexto: Seq<char>, npcs: Seq<NpcView>, ms: Seq<PropostaView>)
    requires
        precos_conhecidos(npcs).len() == 0,
    ensures
        correcao(contexto, npcs, ms) is None,
{
}

/// Uma lista é corrigida no máximo uma vez. Se nada há a corrigir, o turno fica
/// com ela, haja ou não outra resposta. Senão fica com as propostas da segunda
/// resposta, sem as conferir, e nada da primeira lista entra; sem uma segunda
/// resposta que se leia, fica sem propostas.
pub proof fn lei_corrige_uma_vez(
    contexto: Seq<char>,
    npcs: Seq<NpcView>,
    primeira: Resposta<Vec<MudancaProposta>>,
    d: Decisao,
    segunda: Resposta<Vec<MudancaProposta>>,
)
    requires
        decide(contexto, npcs, propostas_lidas(primeira), d),
    ensures
        correcao(contexto, npcs, propostas_vistas(propostas_lidas(primeira))) is None
            ==> d is Aceitar && d.conclusao(None) == propostas_lidas(primeira) && d.conclusao(
            Some(segunda),
        ) == propostas_lidas(primeira),
        correcao(contexto, npcs, propostas_vistas(propostas_lidas(primeira))) is Some
            ==> d is Refazer && d.conclusao(Some(segunda)) == propostas_lidas(segunda)
            && d.conclusao(None).len() == 0,
{
}

/// Numa lista aceita, o primeiro item ganho que tem preço conhecido vem com o
/// pagamento exato desse preço.
pub proof fn lei_item_aceito_foi_pago(
    contexto: Seq<char>,
    npcs: Seq<NpcView>,
    ms: Seq<PropostaView>,
)
    requires
        correcao(contexto, npcs, ms) is None,
        ganho_com_preco(ms, precos_conhecidos(npcs), 0) is Some,
    ensures
        moedas_propostas(ms, 0) is Some,
        moedas_propostas(ms, 0)->0 == -((ganho_com_preco(ms, precos_conhecidos(npcs), 0)->0).1
            as int),
{
    lema_ganho_exige_preco(ms, precos_conhecidos(npcs), 0);
}

proof fn lema_ganho_exige_preco(
    ms: Seq<PropostaView>,
    precos: Seq<(Seq<char>, u32)>,
    de: int,
)
    requires
        0 <= de,
    ensures
        ganho_com_preco(ms, precos, de) is Some ==> precos.len() > 0,
    decreases ms.len() - de,
{
    if de < ms.len() {
        lema_ganho_exige_preco(ms, precos, de + 1);
    }
}

proof fn lema_ganho_esta_na_lista(
    ms: Seq<PropostaView>,
    precos: Seq<(Seq<char>, u32)>,
    de: int,
)
    requires
        0 <= de,
    ensures
        ganho_com_preco(ms, precos, de) matches Some(g) ==> ganha(ms, g.0) && preco_de(
            precos,
            g.0,
        ) == Some(g.1),
    decreases ms.len() - de,
{
    if de < ms.len() {
        lema_ganho_esta_na_lista(ms, precos, de + 1);
        assert(item_ganho(ms[de]) is Some ==> ganha(ms, item_ganho(ms[de])->0));
    }
}

/// Uma compra exata é aceita: se o primeiro item ganho que tem preço conhecido
/// vem com o pagamento exato desse preço, nada há a corrigir.
pub proof fn lei_compra_exata_e_aceita(
    contexto: Seq<char>,
    npcs: Seq<NpcView>,
    ms: Seq<PropostaView>,
)
    requires
        ganho_com_preco(ms, precos_conhecidos(npcs), 0) is Some,
        moedas_propostas(ms, 0) is Some,
        moedas_propostas(ms, 0)->0 == -((ganho_com_preco(ms, precos_conhecidos(npcs), 0)->0).1
            as int),
    ensures
        correcao(contexto, npcs, ms) is None,
{
    let precos = precos_conhecidos(npcs);
    let g = ganho_com_preco(ms, precos, 0)->0;
    lema_ganho_esta_na_lista(ms, precos, 0);
    lema_posicao_do_nome(precos, g.0, 0);
    let i = posicao_do_nome(precos, g.0, 0)->0;
    assert(precos[i].1 == g.1 && ganha(ms, precos[i].0));
}

/// Numa lista aceita, quem paga o preço exato de um item conhecido ganha um item
/// a esse preço.
pub proof fn lei_pagamento_aceito_leva_item(
    contexto: Seq<char>,
    npcs: Seq<NpcView>,
    ms: Seq<PropostaView>,
)
    requires
        correcao(contexto, npcs, ms) is None,
        moedas_propostas(ms, 0) is Some,
        moedas_propostas(ms, 0)->0 < 0,
        item_a_este_preco(
            precos_conhecidos(npcs),
            valor_pago(moedas_propostas(ms, 0)->0),
            0,
        ) is Some,
    ensures
        ganha_a_este_preco(
            ms,
            precos_conhecidos(npcs),
            valor_pago(moedas_propostas(ms, 0)->0),
        ),
{
    if ganho_com_preco(ms, precos_conhecidos(npcs), 0) is Some {
        lema_ganho_exige_preco(ms, precos_conhecidos(npcs), 0);
    }
}

// ---------------------------------------------------------------------------
// Leis, sobre as listas de preços e de propostas
// ---------------------------------------------------------------------------

/// O NPC tem o item na sua lista, a este preço.
pub open spec fn vende(n: NpcView, item: Seq<char>, preco: u32) -> bool {
    exists|k: int| 0 <= k < n.precos.len() && #[trigger] n.precos[k] == (item, preco)
}

proof fn lema_preco_no_mapa(pares: Seq<(Seq<char>, u32)>, item: Seq<char>)
    ensures
        preco_de(pares, item) is Some <==> mapa_dos_pares(pares).contains_key(item),
        preco_de(pares, item) matches Some(v) ==> mapa_dos_pares(pares)[item] == v,
{
}

proof fn lema_preco_na_lista(n: NpcView, item: Seq<char>)
    requires
        nomes_distintos(n.precos),
    ensures
        forall|v: u32| preco_de(n.precos, item) == Some(v) <==> #[trigger] vende(n, item, v),
{
    let pares = n.precos;
    lema_posicao_do_nome(pares, item, 0);
    assert forall|v: u32| preco_de(pares, item) == Some(v) <==> #[trigger] vende(n, item, v) by {
        if vende(n, item, v) {
            let k = choose|k: int| 0 <= k < pares.len() && #[trigger] pares[k] == (item, v);
            match posicao_do_nome(pares, item, 0) {
                Some(i) => {
                    if i < k {
                        assert(pares[i].0 != pares[k].0);
                    }
                    if k < i {
                        assert(pares[k].0 != item);
                    }
                },
                None => {
                    assert(pares[k].0 != item);
                },
            }
        }
        if preco_de(pares, item) == Some(v) {
            let i = posicao_do_nome(pares, item, 0)->0;
            assert(pares[i] == (item, v));
        }
    }
}

proof fn lema_sobrepostos(
    base: Seq<(Seq<char>, u32)>,
    novos: Seq<(Seq<char>, u32)>,
    item: Seq<char>,
)
    requires
        nomes_distintos(novos),
    ensures
        preco_de(sobrepostos(base, novos), item) == (match preco_de(novos, item) {
            Some(v) => Some(v),
            None => preco_de(base, item),
        }),
    decreases novos.len(),
{
    if novos.len() > 0 {
        let resto = novos.drop_last();
        assert forall|i: int, j: int| 0 <= i < j < resto.len() implies (#[trigger] resto[i]).0 != (
        #[trigger] resto[j]).0 by {
            assert(novos[i].0 != novos[j].0);
        }
        lema_sobrepostos(base, resto, item);
        let meio = sobrepostos(base, resto);
        let (nome, valor) = novos.last();
        lema_pares_com(meio, nome, valor);
        lema_preco_no_mapa(meio, item);
        lema_preco_no_mapa(pares_com(meio, nome, valor), item);
        lema_posicao_do_nome(novos, item, 0);
        lema_posicao_do_nome(resto, item, 0);
        let n = novos.len() - 1;
        match posicao_do_nome(novos, item, 0) {
            Some(i) => {
                if i < n {
                    assert(resto[i] == novos[i]);
                    assert(novos[i].0 != novos[n].0);
                    match posicao_do_nome(resto, item, 0) {
                        Some(j) => {
                            assert(resto[j] == novos[j]);
                            if i < j {
                                assert(resto[i].0 != item);
                            }
                            if j < i {
                                assert(novos[j].0 != item);
                            }
                        },
                        None => {
                            assert(resto[i].0 != item);
                        },
                    }
                } else {
                    match posicao_do_nome(resto, item, 0) {
                        Some(j) => {
                            assert(novos[j].0 != item);
                        },
                        None => {},
                    }
                }
            },
            None => {
                assert(novos[n].0 != item);
                match posicao_do_nome(resto, item, 0) {
                    Some(j) => {
                        assert(novos[j].0 != item);
                    },
                    None => {},
                }
            },
        }
    }
}

proof fn lema_preco_do_ultimo(npcs: Seq<NpcView>, item: Seq<char>) -> (i: int)
    requires
        forall|i: int| 0 <= i < npcs.len() ==> nomes_distintos((#[trigger] npcs[i]).precos),
    ensures
        preco_de(precos_conhecidos(npcs), item) is Some ==> 0 <= i < npcs.len() && preco_de(
            precos_conhecidos(npcs),
            item,
        ) == preco_de(npcs[i].precos, item) && forall|j: int|
            i < j < npcs.len() ==> preco_de((#[trigger] npcs[j]).precos, item) is None,
        preco_de(precos_conhecidos(npcs), item) is None ==> forall|j: int|
            0 <= j < npcs.len() ==> preco_de((#[trigger] npcs[j]).precos, item) is None,
    decreases npcs.len(),
{
    if npcs.len() == 0 {
        lema_posicao_do_nome(precos_conhecidos(npcs), item, 0);
        0
    } else {
        let resto = npcs.drop_last();
        let n = npcs.len() - 1;
        assert forall|i: int| 0 <= i < resto.len() implies nomes_distintos(
            (#[trigger] resto[i]).precos,
        ) by {
            assert(resto[i] == npcs[i]);
        }
        let i = lema_preco_do_ultimo(resto, item);
        assert(nomes_distintos(npcs[n].precos));
        lema_sobrepostos(precos_conhecidos(resto), npcs.last().precos, item);
        if preco_de(npcs[n].precos, item) is Some {
            n
        } else {
            assert forall|j: int|
                0 <= j < n && preco_de((#[trigger] npcs[j]).precos, item) is Some implies preco_de(
                resto[j].precos,
                item,
            ) is Some by {
                assert(resto[j] == npcs[j]);
            }
            i
        }
    }
}

/// Um item tem preço conhecido exatamente quando algum NPC presente o vende.
pub proof fn lei_precos_conhecidos(npcs: Seq<NpcView>, item: Seq<char>)
    requires
        forall|i: int| 0 <= i < npcs.len() ==> nomes_distintos((#[trigger] npcs[i]).precos),
    ensures
        preco_de(precos_conhecidos(npcs), item) is Some <==> exists|i: int, v: u32|
            0 <= i < npcs.len() && #[trigger] vende(npcs[i], item, v),
{
    let k = lema_preco_do_ultimo(npcs, item);
    if preco_de(precos_conhecidos(npcs), item) is Some {
        assert(nomes_distintos(npcs[k].precos));
        lema_preco_na_lista(npcs[k], item);
        assert(vende(npcs[k], item, preco_de(npcs[k].precos, item)->0));
    }
    if exists|i: int, v: u32| 0 <= i < npcs.len() && #[trigger] vende(npcs[i], item, v) {
        let (i, v) = choose|i: int, v: u32|
            0 <= i < npcs.len() && #[trigger] vende(npcs[i], item, v);
        assert(nomes_distintos(npcs[i].precos));
        lema_preco_na_lista(npcs[i], item);
    }
}

/// O preço conhecido de um item é o do último NPC presente que o vende.
pub proof fn lei_preco_do_ultimo_vendedor(
    npcs: Seq<NpcView>,
    item: Seq<char>,
    i: int,
    preco: u32,
)
    requires
        forall|j: int| 0 <= j < npcs.len() ==> nomes_distintos((#[trigger] npcs[j]).precos),
        0 <= i < npcs.len(),
        vende(npcs[i], item, preco),
        forall|j: int, w: u32| i < j < npcs.len() ==> !#[trigger] vende(npcs[j], item, w),
    ensures
        preco_de(precos_conhecidos(npcs), item) == Some(preco),
{
    let k = lema_preco_do_ultimo(npcs, item);
    assert(nomes_distintos(npcs[i].precos));
    lema_preco_na_lista(npcs[i], item);
    if k > i {
        assert(nomes_distintos(npcs[k].precos));
        lema_preco_na_lista(npcs[k], item);
        assert(vende(npcs[k], item, preco_de(npcs[k].precos, item)->0));
    }
}

/// Uma proposta ganha um item quando acrescenta ao inventário um texto, que é o
/// item.
pub proof fn lei_item_ganho(m: PropostaView, item: Seq<char>)
    ensures
        item_ganho(m) == Some(item) <==> m.campo == "player.inventario"@ && m.operacao
            == "adicionar"@ && m.valor == ValorView::Texto(item),
{
}

proof fn lema_sem_moedas(ms: Seq<PropostaView>, de: int, k: int)
    requires
        0 <= de <= k <= ms.len(),
        forall|i: int| de <= i < k ==> !trata_de(#[trigger] ms[i], "player.moedas"@, "somar"@),
    ensures
        moedas_propostas(ms, de) == moedas_propostas(ms, k),
    decreases k - de,
{
    if de < k {
        assert(!trata_de(ms[de], "player.moedas"@, "somar"@));
        lema_sem_moedas(ms, de + 1, k);
    }
}

/// Do que se paga vale a primeira proposta sobre as moedas, e só se é um inteiro.
pub proof fn lei_primeira_moeda(ms: Seq<PropostaView>, k: int)
    requires
        0 <= k < ms.len(),
        ms[k].campo == "player.moedas"@,
        ms[k].operacao == "somar"@,
        forall|i: int|
            0 <= i < k ==> !((#[trigger] ms[i]).campo == "player.moedas"@ && ms[i].operacao
                == "somar"@),
    ensures
        moedas_propostas(ms, 0) == ms[k].valor.inteiro(),
{
    lema_sem_moedas(ms, 0, k);
}

/// Sem proposta sobre as moedas não se paga nada.
pub proof fn lei_sem_proposta_de_moedas(ms: Seq<PropostaView>)
    requires
        forall|i: int|
            0 <= i < ms.len() ==> !((#[trigger] ms[i]).campo == "player.moedas"@ && ms[i].operacao
                == "somar"@),
    ensures
        moedas_propostas(ms, 0) is None,
{
    lema_sem_moedas(ms, 0, ms.len() as int);
}

/// A proposta ganha um item que tem preço.
pub open spec fn ganha_com_preco(m: PropostaView, precos: Seq<(Seq<char>, u32)>) -> bool {
    item_ganho(m) matches Some(item) && preco_de(precos, item) is Some
}

proof fn lema_sem_ganho(ms: Seq<PropostaView>, precos: Seq<(Seq<char>, u32)>, de: int, k: int)
    requires
        0 <= de <= k <= ms.len(),
        forall|i: int| de <= i < k ==> !ganha_com_preco(#[trigger] ms[i], precos),
    ensures
        ganho_com_preco(ms, precos, de) == ganho_com_preco(ms, precos, k),
    decreases k - de,
{
    if de < k {
        assert(!ganha_com_preco(ms[de], precos));
        lema_sem_ganho(ms, precos, de + 1, k);
    }
}

/// Dos itens ganhos conta o da primeira proposta que ganha um item com preço.
pub proof fn lei_primeiro_ganho(
    ms: Seq<PropostaView>,
    precos: Seq<(Seq<char>, u32)>,
    k: int,
    item: Seq<char>,
    preco: u32,
)
    requires
        0 <= k < ms.len(),
        item_ganho(ms[k]) == Some(item),
        preco_de(precos, item) == Some(preco),
        forall|i: int| 0 <= i < k ==> !ganha_com_preco(#[trigger] ms[i], precos),
    ensures
        ganho_com_preco(ms, precos, 0) == Some((item, preco)),
{
    lema_sem_ganho(ms, precos, 0, k);
}

/// Se nenhuma proposta ganha um item com preço, não há ganho a pagar; se alguma
/// ganha, há.
pub proof fn lei_ha_ganho(ms: Seq<PropostaView>, precos: Seq<(Seq<char>, u32)>, de: int)
    requires
        0 <= de,
    ensures
        ganho_com_preco(ms, precos, de) is None <==> forall|i: int|
            de <= i < ms.len() ==> !ganha_com_preco(#[trigger] ms[i], precos),
    decreases ms.len() - de,
{
    if de < ms.len() {
        lei_ha_ganho(ms, precos, de + 1);
        if ganha_com_preco(ms[de], precos) {
            assert(ganho_com_preco(ms, precos, de) is Some);
        }
    }
}

/// Ganhar um item que algum NPC presente vende, sem propor pagamento, nunca é
/// aceito.
pub proof fn lei_item_vendido_sem_pagamento(
    contexto: Seq<char>,
    npcs: Seq<NpcView>,
    ms: Seq<PropostaView>,
    i: int,
    preco: u32,
    k: int,
    item: Seq<char>,
)
    requires
        forall|j: int| 0 <= j < npcs.len() ==> nomes_distintos((#[trigger] npcs[j]).precos),
        0 <= i < npcs.len(),
        vende(npcs[i], item, preco),
        0 <= k < ms.len(),
        ms[k].campo == "player.inventario"@,
        ms[k].operacao == "adicionar"@,
        ms[k].valor == ValorView::Texto(item),
        forall|j: int|
            0 <= j < ms.len() ==> !((#[trigger] ms[j]).campo == "player.moedas"@ && ms[j].operacao
                == "somar"@),
    ensures
        correcao(contexto, npcs, ms) is Some,
{
    lei_precos_conhecidos(npcs, item);
    lei_ha_ganho(ms, precos_conhecidos(npcs), 0);
    lei_sem_proposta_de_moedas(ms);
    assert(ganha_com_preco(ms[k], precos_conhecidos(npcs)));
    lema_ganho_exige_preco(ms, precos_conhecidos(npcs), 0);
}

/// Há um item a um preço exatamente quando algum da lista o custa.
pub proof fn lei_ha_item_a_este_preco(pares: Seq<(Seq<char>, u32)>, preco: int, de: int)
    requires
        0 <= de,
    ensures
        item_a_este_preco(pares, preco, de) is Some <==> exists|i: int|
            de <= i < pares.len() && (#[trigger] pares[i]).1 == preco,
    decreases pares.len() - de,
{
    if de < pares.len() && pares[de].1 != preco {
        lei_ha_item_a_este_preco(pares, preco, de + 1);
    }
}

/// O item a um preço é o primeiro da lista que o custa.
pub proof fn lei_item_a_este_preco(pares: Seq<(Seq<char>, u32)>, preco: int, de: int, i: int)
    requires
        0 <= de <= i < pares.len(),
        pares[i].1 == preco,
        forall|j: int| de <= j < i ==> (#[trigger] pares[j]).1 != preco,
    ensures
        item_a_este_preco(pares, preco, de) == Some(pares[i].0),
    decreases i - de,
{
    if de < i {
        assert(pares[de].1 != preco);
        lei_item_a_este_preco(pares, preco, de + 1, i);
    }
}

/// O vendedor de um item é o primeiro presente que o tem na lista.
pub proof fn lei_vendedor_do_item(npcs: Seq<NpcView>, item: Seq<char>, de: int, i: int)
    requires
        0 <= de <= i < npcs.len(),
        preco_de(npcs[i].precos, item) is Some,
        forall|j: int| de <= j < i ==> preco_de((#[trigger] npcs[j]).precos, item) is None,
    ensures
        vendedor_do_item(npcs, item, de) == npcs[i].nome,
    decreases i - de,
{
    if de < i {
        assert(preco_de(npcs[de].precos, item) is None);
        lei_vendedor_do_item(npcs, item, de + 1, i);
    }
}

/// O vendedor de um item a um preço é o primeiro presente que o tem a esse preço.
pub proof fn lei_vendedor_ao_preco(
    npcs: Seq<NpcView>,
    item: Seq<char>,
    preco: u32,
    de: int,
    i: int,
)
    requires
        0 <= de <= i < npcs.len(),
        preco_de(npcs[i].precos, item) == Some(preco),
        forall|j: int| de <= j < i ==> preco_de((#[trigger] npcs[j]).precos, item) != Some(preco),
    ensures
        vendedor_ao_preco(npcs, item, preco, de) == npcs[i].nome,
    decreases i - de,
{
    if de < i {
        assert(preco_de(npcs[de].precos, item) != Some(preco));
        lei_vendedor_ao_preco(npcs, item, preco, de + 1, i);
    }
}

/// Quando uma lista é recusada, e por quê. Com um item ganho que tem preço: se
/// nada se paga, ou se o que se paga não é o preço dele. Sem item ganho que tenha
/// preço: se o que se paga é o preço de algum. Em nenhum outro caso.
pub proof fn lei_motivos_da_recusa(
    contexto: Seq<char>,
    npcs: Seq<NpcView>,
    ms: Seq<PropostaView>,
)
    ensures
        ({
            let precos = precos_conhecidos(npcs);
            let pago = moedas_propostas(ms, 0);
            match ganho_com_preco(ms, precos, 0) {
                Some(g) => {
                    let vendedor = vendedor_do_item(npcs, g.0, 0);
                    &&& pago is None ==> correcao(contexto, npcs, ms) == Some(
                        aviso_sem_pagamento(contexto, g.0, g.1, vendedor),
                    )
                    &&& pago matches Some(v) ==> (v + g.1 != 0 ==> correcao(contexto, npcs, ms)
                        == Some(aviso_preco_fixo(contexto, g.0, g.1, vendedor)))
                    &&& pago matches Some(v) ==> (v + g.1 == 0 ==> correcao(
                        contexto,
                        npcs,
                        ms,
                    ) is None)
                },
                None => {
                    let sem_item = pago matches Some(v) && v < 0 && exists|i: int|
                        0 <= i < precos.len() && (#[trigger] precos[i]).1 + v == 0;
                    &&& correcao(contexto, npcs, ms) is Some <==> sem_item
                    &&& sem_item ==> {
                        let preco = (0 - pago->0) as u32;
                        let item = item_a_este_preco(precos, 0 - pago->0, 0)->0;
                        correcao(contexto, npcs, ms) == Some(
                            aviso_sem_item(
                                contexto,
                                item,
                                preco,
                                vendedor_ao_preco(npcs, item, preco, 0),
                            ),
                        )
                    }
                },
            }
        }),
{
    let precos = precos_conhecidos(npcs);
    let pago = moedas_propostas(ms, 0);
    lema_ganho_exige_preco(ms, precos, 0);
    match ganho_com_preco(ms, precos, 0) {
        Some(g) => {
            if pago is Some && pago->0 + g.1 == 0 {
                lei_compra_exata_e_aceita(contexto, npcs, ms);
            }
        },
        None => {
            lei_ha_ganho(ms, precos, 0);
            if pago is Some && pago->0 < 0 {
                let v = pago->0;
                lei_ha_item_a_este_preco(precos, 0 - v, 0);
                if ganha_a_este_preco(ms, precos, 0 - v) {
                    let i = choose|i: int|
                        0 <= i < precos.len() && (#[trigger] precos[i]).1 == 0 - v && ganha(
                            ms,
                            precos[i].0,
                        );
                    let j = choose|j: int|
                        0 <= j < ms.len() && item_ganho(#[trigger] ms[j]) == Some(precos[i].0);
                    lema_posicao_do_nome(precos, precos[i].0, 0);
                    assert(ganha_com_preco(ms[j], precos));
                    assert(false);
                }
                if exists|i: int| 0 <= i < precos.len() && (#[trigger] precos[i]).1 + v == 0 {
                    let i = choose|i: int|
                        0 <= i < precos.len() && (#[trigger] precos[i]).1 + v == 0;
                    assert(precos[i].1 == 0 - v);
                }
                if item_a_este_preco(precos, 0 - v, 0) is Some {
                    let i = choose|i: int|
                        0 <= i < precos.len() && (#[trigger] precos[i]).1 == 0 - v;
                    assert(precos[i].1 + v == 0);
                }
            }
        },
    }
}

/// Todo pedido de correção começa pelo que aconteceu no turno e diz o item, o
/// preço e o vendedor.
pub proof fn lei_correcao_diz_o_que_nao_fecha(
    contexto: Seq<char>,
    item: Seq<char>,
    preco: u32,
    vendedor: Seq<char>,
    aviso: Seq<char>,
)
    requires
        aviso == aviso_sem_pagamento(contexto, item, preco, vendedor) || aviso == aviso_preco_fixo(
            contexto,
            item,
            preco,
            vendedor,
        ) || aviso == aviso_sem_item(contexto, item, preco, vendedor),
    ensures
        contexto.is_prefix_of(aviso),
        tem_trecho(aviso, item),
        tem_trecho(aviso, decimal(preco as int)),
        tem_trecho(aviso, vendedor),
{
    let numero = decimal(preco as int);
    if aviso == aviso_sem_pagamento(contexto, item, preco, vendedor) {
        let a = contexto + "\n\nATENÇÃO: você propôs que o jogador ganhasse \""@;
        let b = a + item + "\", que custa "@;
        let c = b + numero + " moedas na loja de "@;
        lema_pedacos(aviso, a, item);
        lema_pedacos(aviso, b, numero);
        lema_pedacos(aviso, c, vendedor);
    } else if aviso == aviso_preco_fixo(contexto, item, preco, vendedor) {
        let a = contexto + "\n\nATENÇÃO: \""@;
        let b = a + item + "\" tem preço FIXO de "@;
        let c = b + numero + " moedas na loja de "@;
        lema_pedacos(aviso, a, item);
        lema_pedacos(aviso, b, numero);
        lema_pedacos(aviso, c, vendedor);
    } else {
        let a = contexto + "\n\nATENÇÃO: você propôs debitar "@;
        let b = a + numero
            + " moedas do jogador — valor que corresponde exatamente ao preço de \""@;
        let c = b + item + "\" cobrado por "@;
        lema_pedacos(aviso, a, numero);
        lema_pedacos(aviso, b, item);
        lema_pedacos(aviso, c, vendedor);
    }
}

proof fn lema_pedacos(s: Seq<char>, antes: Seq<char>, t: Seq<char>)
    requires
        (antes + t).is_prefix_of(s),
    ensures
        tem_trecho(s, t),
{
    let depois = s.skip((antes + t).len() as int);
    lema_tem_meio(antes, t, depois);
    assert(antes + t + depois =~= s);
}

/// A correção de uma compra ensina o débito: o preço, todo ele, e negativo.
pub proof fn lei_correcao_ensina_o_debito(
    contexto: Seq<char>,
    item: Seq<char>,
    preco: u32,
    vendedor: Seq<char>,
)
    ensures
        tem_trecho(
            aviso_sem_pagamento(contexto, item, preco, vendedor),
            "-"@ + decimal(preco as int) + "}"@,
        ),
        tem_trecho(
            aviso_preco_fixo(contexto, item, preco, vendedor),
            "-"@ + decimal(preco as int) + "}"@,
        ),
{
    let numero = decimal(preco as int);
    let debito = "-"@ + numero + "}"@;
    reveal_strlit("-");
    reveal_strlit("}");
    let s = aviso_sem_pagamento(contexto, item, preco, vendedor);
    let meio =
        ". Isso só é válido se o texto acima deixa claro que foi de graça, recompensa, achado ou roubado. Reescreva a lista de mudanças: se foi uma compra normal, inclua também {\"campo\": \"player.moedas\", \"operacao\": \"somar\", \"valor\": -"@;
    reveal_strlit(
        ". Isso só é válido se o texto acima deixa claro que foi de graça, recompensa, achado ou roubado. Reescreva a lista de mudanças: se foi uma compra normal, inclua também {\"campo\": \"player.moedas\", \"operacao\": \"somar\", \"valor\": -",
    );
    reveal_strlit(
        "}. Se não houve pagamento nem justificativa clara no texto original, remova a proposta de ganhar \"",
    );
    let antes = contexto + "\n\nATENÇÃO: você propôs que o jogador ganhasse \""@ + item
        + "\", que custa "@ + numero + " moedas na loja de "@ + vendedor + meio;
    assert(antes.last() == '-');
    lema_pedacos(s, antes.drop_last(), debito);
    let t = aviso_preco_fixo(contexto, item, preco, vendedor);
    let fixo =
        " — o preço não é negociável nem decidido pela narração. Reescreva a lista de mudanças usando exatamente {\"campo\": \"player.moedas\", \"operacao\": \"somar\", \"valor\": -"@;
    reveal_strlit(
        " — o preço não é negociável nem decidido pela narração. Reescreva a lista de mudanças usando exatamente {\"campo\": \"player.moedas\", \"operacao\": \"somar\", \"valor\": -",
    );
    reveal_strlit("} para o pagamento.");
    let comeco = contexto + "\n\nATENÇÃO: \""@ + item + "\" tem preço FIXO de "@ + numero
        + " moedas na loja de "@ + vendedor + fixo;
    assert(comeco.last() == '-');
    lema_pedacos(t, comeco.drop_last(), debito);
}

} // verus!
