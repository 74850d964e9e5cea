//! Livre-arbítrio: NPCs autônomos agem por conta própria, sem jogador na
//! conversa. Uma ação qualquer só gera uma linha no log; uma conversa entre dois
//! NPCs gera falas que o jogador no mesmo local pode ouvir.

use crate::combate::{combatente, pode_lutar};
use crate::events::{identificador_valido, Event, EventType, Fato};
use crate::llm::{Pedido, Resposta};
use crate::state::{fichas, fichas_ref, Npc, NpcStatus, NpcView};
use crate::tabela::Tabela;
use crate::texto::{
    contem, em_branco, juntado, juntar, lei_filtro, lei_juntado_tem_as_partes, lema_tem_meio,
    lema_tem_trecho_de_trecho, mesmo_texto, so_espaco, tem_trecho, textos,
};
use crate::valor::{vazio, Objeto, Valor, ValorView};
use vstd::prelude::*;

verus! {

/// As instruções de quem decide o que um NPC autônomo faz.
pub const SYSTEM_PROMPT_ACAO_AUTONOMA: &'static str = r#"Você é o Mestre de Jogo de um RPG de fantasia medieval. Um personagem autônomo (NPC) vai agir por conta própria, sem jogador presente interagindo com ele agora. Decida uma ação plausível pra esse personagem, coerente com seu papel e personalidade.
Responda APENAS com um JSON no formato {"tipo": "mover"|"conversar"|"ambiente", "detalhe": "...", "participante_b_id": "id de outro personagem presente, ou vazio"}.
Use "conversar" só se houver outro personagem presente que faça sentido conversar com o ator agora (informe o id dele em participante_b_id). Use "ambiente" para uma ação simples do dia a dia (servir um cliente, patrulhar, arrumar algo). Use "mover" se o personagem teria razão pra ir a outro lugar (não decida o destino, só a intenção)."#;

/// O que se sugeriu que o NPC faça.
#[derive(Debug, Clone)]
pub struct AcaoAutonomaProposta {
    pub tipo: String,
    pub detalhe: String,
    pub participante_b_id: String,
}

/// Uma fala sugerida.
#[derive(Debug, Clone)]
pub struct FalaProposta {
    pub npc_id: String,
    pub texto: String,
}

// ---------------------------------------------------------------------------
// O sorteio
// ---------------------------------------------------------------------------

/// Quem pode agir por conta própria: autônomo, não morto, não combatente.
pub open spec fn elegivel() -> spec_fn(NpcView) -> bool {
    |n: NpcView| n.autonomo && n.status != NpcStatus::Morto && !combatente(n)
}

/// Quem pode agir por conta própria num local.
pub open spec fn elegivel_em(location_id: Seq<char>) -> spec_fn(NpcView) -> bool {
    |n: NpcView| elegivel()(n) && n.location_id == location_id
}

/// Os locais com alguém que pode agir, na ordem em que aparecem.
pub open spec fn locais(npcs: Seq<NpcView>) -> Seq<Seq<char>>
    decreases npcs.len(),
{
    if npcs.len() == 0 {
        Seq::empty()
    } else {
        let antes = locais(npcs.drop_last());
        let n = npcs.last();
        if elegivel()(n) && !antes.contains(n.location_id) {
            antes.push(n.location_id)
        } else {
            antes
        }
    }
}

/// Quem pode agir num local, na ordem.
pub open spec fn candidatos_em(npcs: Seq<NpcView>, location_id: Seq<char>) -> Seq<NpcView> {
    npcs.filter(elegivel_em(location_id))
}

/// Quem age: um local, quem está nele, e qual deles é o ator.
#[derive(Debug)]
pub struct Sorteio<'a> {
    pub location_id: String,
    pub candidatos: Vec<&'a Npc>,
    pub ator: usize,
}

/// `rand::random` para `usize`: um número ao acaso, sobre o qual nada se
/// promete. Numa máquina sem fonte de acaso a chamada não volta.
#[verifier::external_body]
fn sortear() -> usize {
    rand::random::<usize>()
}

proof fn lema_locais(npcs: Seq<NpcView>, local: Seq<char>)
    ensures
        locais(npcs).contains(local) ==> exists|i: int|
            0 <= i < npcs.len() && elegivel()(#[trigger] npcs[i]) && npcs[i].location_id == local,
    decreases npcs.len(),
{
    if npcs.len() > 0 {
        let antes = npcs.drop_last();
        lema_locais(antes, local);
        if locais(npcs).contains(local) {
            if locais(antes).contains(local) {
                let i = choose|i: int|
                    0 <= i < antes.len() && elegivel()(#[trigger] antes[i])
                        && antes[i].location_id == local;
                assert(npcs[i] == antes[i]);
            } else {
                let k = choose|k: int| 0 <= k < locais(npcs).len() && locais(npcs)[k] == local;
                if k < locais(antes).len() {
                    assert(locais(antes)[k] == local);
                }
                assert(npcs.last().location_id == local);
                assert(npcs[npcs.len() - 1] == npcs.last());
            }
        }
    }
}

/// Quem é autônomo e não está morto ou age por conta própria ou pode lutar, nunca
/// os dois; quem não é autônomo ou está morto não age.
pub proof fn lei_age_ou_luta(n: NpcView)
    ensures
        n.autonomo && n.status != NpcStatus::Morto ==> (elegivel()(n) <==> !combatente(n)),
        !n.autonomo || n.status == NpcStatus::Morto ==> !elegivel()(n),
{
}

/// Um local com alguém que pode agir tem candidatos.
pub proof fn lei_local_tem_candidatos(npcs: Seq<NpcView>, local: Seq<char>)
    requires
        locais(npcs).contains(local),
    ensures
        candidatos_em(npcs, local).len() > 0,
{
    lema_locais(npcs, local);
    let i = choose|i: int|
        0 <= i < npcs.len() && elegivel()(#[trigger] npcs[i]) && npcs[i].location_id == local;
    npcs.lemma_filter_contains(elegivel_em(local), i);
    let cs = candidatos_em(npcs, local);
    let k = choose|k: int| 0 <= k < cs.len() && cs[k] == npcs[i];
    assert(0 <= k < cs.len());
}

fn pode_agir(n: &Npc) -> (r: bool)
    ensures
        r == elegivel()(n@),
{
    let morto = match n.status {
        NpcStatus::Morto => true,
        _ => false,
    };
    n.autonomo && !morto && !pode_lutar(n)
}

fn reunir_locais(npcs: &[Npc]) -> (r: Vec<String>)
    ensures
        textos(r@) == locais(fichas(npcs@)),
{
    let ghost vs = fichas(npcs@);
    let mut r: Vec<String> = Vec::new();
    let mut i: usize = 0;
    proof {
        assert(vs.take(0) =~= Seq::<NpcView>::empty());
        assert(textos(r@) =~= locais(vs.take(0)));
    }
    while i < npcs.len()
        invariant
            i <= npcs@.len(),
            vs == fichas(npcs@),
            textos(r@) == locais(vs.take(i as int)),
        decreases npcs@.len() - i,
    {
        proof {
            assert(vs.take(i + 1).drop_last() =~= vs.take(i as int));
            assert(vs.take(i + 1).last() == npcs@[i as int]@);
        }
        if pode_agir(&npcs[i]) && !contem(r.as_slice(), npcs[i].location_id.as_str()) {
            let ghost antes = r@;
            r.push(npcs[i].location_id.clone());
            assert(textos(r@) =~= textos(antes).push(npcs@[i as int]@.location_id));
        }
        i += 1;
    }
    assert(vs.take(i as int) =~= vs);
    r
}

fn reunir_candidatos<'a>(npcs: &'a [Npc], location_id: &str) -> (r: Vec<&'a Npc>)
    ensures
        fichas_ref(r@) == candidatos_em(fichas(npcs@), location_id@),
{
    let ghost vs = fichas(npcs@);
    let mut r: Vec<&'a Npc> = Vec::new();
    let mut i: usize = 0;
    proof {
        reveal(Seq::filter);
        assert(vs.take(0) =~= Seq::<NpcView>::empty());
        assert(fichas_ref(r@) =~= candidatos_em(vs.take(0), location_id@));
    }
    while i < npcs.len()
        invariant
            i <= npcs@.len(),
            vs == fichas(npcs@),
            fichas_ref(r@) == candidatos_em(vs.take(i as int), location_id@),
        decreases npcs@.len() - i,
    {
        proof {
            reveal(Seq::filter);
            assert(vs.take(i + 1).drop_last() =~= vs.take(i as int));
            assert(vs.take(i + 1).last() == npcs@[i as int]@);
        }
        if pode_agir(&npcs[i]) && mesmo_texto(npcs[i].location_id.as_str(), location_id) {
            let ghost antes = r@;
            r.push(&npcs[i]);
            assert(fichas_ref(r@) =~= fichas_ref(antes).push(npcs@[i as int]@));
        }
        i += 1;
    }
    assert(vs.take(i as int) =~= vs);
    r
}

/// Quem age, dados dois números: o primeiro escolhe o local, o segundo o ator
/// entre quem está nele. Sem ninguém que possa agir não há sorteio.
pub fn escolher<'a>(npcs: &'a [Npc], qual_local: usize, qual_ator: usize) -> (r: Option<
    Sorteio<'a>,
>)
    ensures
        match r {
            None => locais(fichas(npcs@)).len() == 0,
            Some(s) => {
                let ls = locais(fichas(npcs@));
                &&& ls.len() > 0
                &&& s.location_id@ == ls[qual_local as int % ls.len() as int]
                &&& fichas_ref(s.candidatos@) == candidatos_em(fichas(npcs@), s.location_id@)
                &&& s.candidatos@.len() > 0
                &&& s.ator == qual_ator as int % s.candidatos@.len() as int
            },
        },
{
    let ls = reunir_locais(npcs);
    if ls.len() == 0 {
        return None;
    }
    assert(textos(ls@).len() == ls@.len());
    let k: usize = qual_local % ls.len();
    let location_id = ls[k].clone();
    let candidatos = reunir_candidatos(npcs, location_id.as_str());
    proof {
        assert(textos(ls@)[k as int] == location_id@);
        lei_local_tem_candidatos(fichas(npcs@), location_id@);
        assert(fichas_ref(candidatos@).len() == candidatos@.len());
    }
    let ator: usize = qual_ator % candidatos.len();
    Some(Sorteio { location_id, candidatos, ator })
}

/// Sorteia quem age. Seja qual for o acaso, o ator pode agir e está entre os
/// candidatos do seu local; só não há sorteio se ninguém pode agir.
pub fn sortear_ator<'a>(npcs: &'a [Npc]) -> (r: Option<Sorteio<'a>>)
    ensures
        match r {
            None => locais(fichas(npcs@)).len() == 0,
            Some(s) => {
                &&& locais(fichas(npcs@)).contains(s.location_id@)
                &&& fichas_ref(s.candidatos@) == candidatos_em(fichas(npcs@), s.location_id@)
                &&& s.ator < s.candidatos@.len()
                &&& elegivel_em(s.location_id@)(s.candidatos@[s.ator as int]@)
            },
        },
{
    let r = escolher(npcs, sortear(), sortear());
    proof {
        if r is Some {
            let s = r->0;
            let vs = fichas(npcs@);
            assert(fichas_ref(s.candidatos@)[s.ator as int] == s.candidatos@[s.ator as int]@);
            vs.lemma_filter_pred(elegivel_em(s.location_id@), s.ator as int);
        }
    }
    r
}

// ---------------------------------------------------------------------------
// A decisão
// ---------------------------------------------------------------------------

/// O papel de um NPC.
pub open spec fn papel(n: NpcView) -> Seq<char> {
    if n.descricao.len() == 0 {
        "sem papel definido"@
    } else {
        n.descricao
    }
}

/// Como um presente é apresentado.
pub open spec fn apresentacao_com_papel(n: NpcView) -> Seq<char> {
    n.nome + " (id: "@ + n.id + ", papel: "@ + papel(n) + ")"@
}

/// Como os presentes são apresentados.
pub open spec fn apresentacoes_com_papel(ns: Seq<NpcView>) -> Seq<Seq<char>> {
    ns.map_values(|n: NpcView| apresentacao_com_papel(n))
}

/// A pergunta sobre o que o ator faz.
pub open spec fn entrada_do_tick(
    ator: NpcView,
    location_id: Seq<char>,
    candidatos: Seq<NpcView>,
) -> Seq<char> {
    "Personagem agindo: "@ + ator.nome + " (id: "@ + ator.id + ")\nOutros presentes em "@
        + location_id + ": "@ + juntado(apresentacoes_com_papel(candidatos), "; "@)
}

/// A pergunta sobre o que o ator faz.
pub fn pedido_de_acao_autonoma(ator: &Npc, location_id: &str, candidatos: &[&Npc]) -> (p: Pedido)
    ensures
        p.system@ == SYSTEM_PROMPT_ACAO_AUTONOMA@,
        p.user@ == entrada_do_tick(ator@, location_id@, fichas_ref(candidatos@)),
{
    let ghost ns = fichas_ref(candidatos@);
    let mut partes: Vec<String> = Vec::new();
    let mut i: usize = 0;
    while i < candidatos.len()
        invariant
            i <= candidatos@.len(),
            ns == fichas_ref(candidatos@),
            partes@.len() == i,
            forall|j: int|
                0 <= j < i ==> (#[trigger] partes@[j])@ == apresentacao_com_papel(ns[j]),
        decreases candidatos@.len() - i,
    {
        let n: &Npc = candidatos[i];
        assert(ns[i as int] == n@);
        let mut s = n.nome.clone();
        s.append(" (id: ");
        s.append(n.id.as_str());
        s.append(", papel: ");
        if n.descricao.as_str().unicode_len() == 0 {
            s.append("sem papel definido");
        } else {
            s.append(n.descricao.as_str());
        }
        s.append(")");
        partes.push(s);
        i += 1;
    }
    assert(textos(partes@) =~= apresentacoes_com_papel(ns));
    let mut user = "Personagem agindo: ".to_string();
    user.append(ator.nome.as_str());
    user.append(" (id: ");
    user.append(ator.id.as_str());
    user.append(")\nOutros presentes em ");
    user.append(location_id);
    user.append(": ");
    user.append(juntar(partes.as_slice(), "; ").as_str());
    Pedido { system: SYSTEM_PROMPT_ACAO_AUTONOMA.to_string(), user }
}

/// O que um tick faz: nada, uma conversa com outro NPC, ou uma linha no log.
#[derive(Debug)]
pub enum AcaoDoTick<'a> {
    Nada,
    Conversar(&'a Npc),
    Registrar { tipo: String, descricao: String },
}

/// O que uma [`AcaoDoTick`] diz.
pub enum AcaoDoTickView {
    Nada,
    Conversar(NpcView),
    Registrar { tipo: Seq<char>, descricao: Seq<char> },
}

impl<'a> View for AcaoDoTick<'a> {
    type V = AcaoDoTickView;

    open spec fn view(&self) -> AcaoDoTickView {
        match *self {
            AcaoDoTick::Nada => AcaoDoTickView::Nada,
            AcaoDoTick::Conversar(n) => AcaoDoTickView::Conversar(n@),
            AcaoDoTick::Registrar { tipo, descricao } => AcaoDoTickView::Registrar {
                tipo: tipo@,
                descricao: descricao@,
            },
        }
    }
}

/// O primeiro candidato, a partir de `de`, com este `id` e que não é o ator.
pub open spec fn interlocutor(
    candidatos: Seq<NpcView>,
    id: Seq<char>,
    ator_id: Seq<char>,
    de: int,
) -> Option<NpcView>
    decreases candidatos.len() - de,
{
    if de >= candidatos.len() {
        None
    } else if candidatos[de].id == id && candidatos[de].id != ator_id {
        Some(candidatos[de])
    } else {
        interlocutor(candidatos, id, ator_id, de + 1)
    }
}

/// O que o log conta de uma ação.
pub open spec fn descricao_da_acao(
    ator: NpcView,
    location_id: Seq<char>,
    detalhe: Seq<char>,
) -> Seq<char> {
    if em_branco(detalhe) {
        ator.nome + " fez algo em "@ + location_id
    } else {
        detalhe
    }
}

/// O que o tick faz. Uma conversa sem interlocutor válido vira uma ação de
/// ambiente: nunca se inventa participante.
pub open spec fn acao_do_tick(
    ator: NpcView,
    location_id: Seq<char>,
    candidatos: Seq<NpcView>,
    resposta: Resposta<AcaoAutonomaProposta>,
) -> AcaoDoTickView {
    match resposta {
        Resposta::Lida(p) => {
            let descricao = descricao_da_acao(ator, location_id, p.detalhe@);
            if p.tipo@ == "conversar"@ {
                match interlocutor(candidatos, p.participante_b_id@, ator.id, 0) {
                    Some(b) => AcaoDoTickView::Conversar(b),
                    None => AcaoDoTickView::Registrar { tipo: "ambiente"@, descricao },
                }
            } else {
                AcaoDoTickView::Registrar { tipo: p.tipo@, descricao }
            }
        },
        _ => AcaoDoTickView::Nada,
    }
}

fn achar_interlocutor<'a>(candidatos: &[&'a Npc], id: &str, ator_id: &str) -> (r: Option<&'a Npc>)
    ensures
        match r {
            Some(n) => interlocutor(fichas_ref(candidatos@), id@, ator_id@, 0) == Some(n@),
            None => interlocutor(fichas_ref(candidatos@), id@, ator_id@, 0) is None,
        },
{
    let ghost ns = fichas_ref(candidatos@);
    let mut i: usize = 0;
    while i < candidatos.len()
        invariant
            i <= candidatos@.len(),
            ns == fichas_ref(candidatos@),
            interlocutor(ns, id@, ator_id@, 0) == interlocutor(ns, id@, ator_id@, i as int),
        decreases candidatos@.len() - i,
    {
        let n: &'a Npc = candidatos[i];
        assert(ns[i as int] == n@);
        if mesmo_texto(n.id.as_str(), id) && !mesmo_texto(n.id.as_str(), ator_id) {
            return Some(n);
        }
        i += 1;
    }
    None
}

/// O que o log conta de uma ação sem conversa.
pub fn registrar_ambiente(ator: &Npc, location_id: &str, detalhe: &str) -> (r: String)
    ensures
        r@ == descricao_da_acao(ator@, location_id@, detalhe@),
{
    if so_espaco(detalhe) {
        let mut r = ator.nome.clone();
        r.append(" fez algo em ");
        r.append(location_id);
        r
    } else {
        detalhe.to_string()
    }
}

/// Decide o que um tick faz com a sugestão recebida.
pub fn tick<'a>(
    ator: &Npc,
    location_id: &str,
    candidatos: &[&'a Npc],
    resposta: Resposta<AcaoAutonomaProposta>,
) -> (r: AcaoDoTick<'a>)
    ensures
        r@ == acao_do_tick(ator@, location_id@, fichas_ref(candidatos@), resposta),
{
    match resposta {
        Resposta::Lida(p) => {
            if mesmo_texto(p.tipo.as_str(), "conversar") {
                match achar_interlocutor(
                    candidatos,
                    p.participante_b_id.as_str(),
                    ator.id.as_str(),
                ) {
                    Some(b) => AcaoDoTick::Conversar(b),
                    None => AcaoDoTick::Registrar {
                        tipo: "ambiente".to_string(),
                        descricao: registrar_ambiente(ator, location_id, p.detalhe.as_str()),
                    },
                }
            } else {
                let descricao = registrar_ambiente(ator, location_id, p.detalhe.as_str());
                AcaoDoTick::Registrar { tipo: p.tipo, descricao }
            }
        },
        Resposta::Falha => AcaoDoTick::Nada,
        Resposta::Ilegivel => AcaoDoTick::Nada,
    }
}

proof fn lema_interlocutor(candidatos: Seq<NpcView>, id: Seq<char>, ator_id: Seq<char>, de: int)
    requires
        0 <= de,
    ensures
        interlocutor(candidatos, id, ator_id, de) is Some ==> candidatos.contains(
            interlocutor(candidatos, id, ator_id, de)->0,
        ) && interlocutor(candidatos, id, ator_id, de)->0.id != ator_id,
    decreases candidatos.len() - de,
{
    if de < candidatos.len() && !(candidatos[de].id == id && candidatos[de].id != ator_id) {
        lema_interlocutor(candidatos, id, ator_id, de + 1);
    }
}

/// Seja qual for a sugestão, um NPC só conversa com outro que está presente,
/// nunca consigo mesmo.
pub proof fn lei_conversa_entre_presentes(
    ator: NpcView,
    location_id: Seq<char>,
    candidatos: Seq<NpcView>,
    resposta: Resposta<AcaoAutonomaProposta>,
)
    ensures
        acao_do_tick(ator, location_id, candidatos, resposta) matches AcaoDoTickView::Conversar(b)
            ==> candidatos.contains(b) && b.id != ator.id,
{
    if resposta is Lida {
        lema_interlocutor(candidatos, resposta->Lida_0.participante_b_id@, ator.id, 0);
    }
}

// ---------------------------------------------------------------------------
// A conversa
// ---------------------------------------------------------------------------

/// Como um participante é descrito.
pub open spec fn descricao_ou_falta(n: NpcView) -> Seq<char> {
    if n.descricao.len() == 0 {
        "sem descricao"@
    } else {
        n.descricao
    }
}

/// O que move um participante, se alguma coisa move.
pub open spec fn motivacoes(n: NpcView) -> Seq<char> {
    if n.interesses.len() == 0 {
        Seq::empty()
    } else {
        " Motivações: "@ + juntado(n.interesses, "; "@) + "."@
    }
}

/// Como um participante é apresentado ao narrador.
pub open spec fn participante(n: NpcView) -> Seq<char> {
    n.nome + " (id: "@ + n.id + ") — "@ + descricao_ou_falta(n) + motivacoes(n)
}

/// As instruções do narrador de uma conversa.
pub open spec fn prompt_da_conversa(a: NpcView, b: NpcView) -> Seq<char> {
    "Você está narrando uma conversa breve e natural entre dois personagens de um RPG de fantasia medieval, sem o jogador presente.\n"@
        + participante(a) + "\n"@ + participante(b)
        + "\nResponda APENAS com um JSON no formato {\"falas\": [{\"npc_id\": \"...\", \"texto\": \"...\"}]}, com 2 a 4 falas alternando entre os dois ids.\nFORMATO OBRIGATÓRIO em cada texto: use *ação* para gesto/expressão (sem aspas) e -fala para diálogo direto (traço no início, sem aspas). Mantenha cada personagem na própria voz e papel, nunca invente fatos novos do mundo."@
}

fn escrever_participante(n: &Npc) -> (r: String)
    ensures
        r@ == participante(n@),
{
    let mut r = n.nome.clone();
    r.append(" (id: ");
    r.append(n.id.as_str());
    r.append(") — ");
    if n.descricao.as_str().unicode_len() == 0 {
        r.append("sem descricao");
    } else {
        r.append(n.descricao.as_str());
    }
    let ghost antes = r@;
    if n.interesses.len() > 0 {
        r.append(" Motivações: ");
        r.append(juntar(n.interesses.as_slice(), "; ").as_str());
        r.append(".");
    }
    assert(r@ =~= antes + motivacoes(n@));
    r
}

/// O pedido de uma conversa entre dois NPCs.
pub fn pedido_de_conversa(a: &Npc, b: &Npc, location_id: &str) -> (p: Pedido)
    ensures
        p.system@ == prompt_da_conversa(a@, b@),
        p.user@ == "Local: "@ + location_id@ + ". Gere a conversa agora."@,
{
    let mut system =
        "Você está narrando uma conversa breve e natural entre dois personagens de um RPG de fantasia medieval, sem o jogador presente.\n".to_string();
    system.append(escrever_participante(a).as_str());
    system.append("\n");
    system.append(escrever_participante(b).as_str());
    system.append(
        "\nResponda APENAS com um JSON no formato {\"falas\": [{\"npc_id\": \"...\", \"texto\": \"...\"}]}, com 2 a 4 falas alternando entre os dois ids.\nFORMATO OBRIGATÓRIO em cada texto: use *ação* para gesto/expressão (sem aspas) e -fala para diálogo direto (traço no início, sem aspas). Mantenha cada personagem na própria voz e papel, nunca invente fatos novos do mundo.",
    );
    let mut user = "Local: ".to_string();
    user.append(location_id);
    user.append(". Gere a conversa agora.");
    Pedido { system, user }
}

/// O que uma lista de falas diz: de quem e o quê.
pub open spec fn falas_vistas(fs: Seq<FalaProposta>) -> Seq<(Seq<char>, Seq<char>)> {
    fs.map_values(|f: FalaProposta| (f.npc_id@, f.texto@))
}

/// Uma fala de um dos dois participantes, e não vazia.
pub open spec fn fala_aproveitavel(a_id: Seq<char>, b_id: Seq<char>) -> spec_fn(
    (Seq<char>, Seq<char>),
) -> bool {
    |f: (Seq<char>, Seq<char>)| (f.0 == a_id || f.0 == b_id) && !em_branco(f.1)
}

/// As falas de uma resposta que valem a pena: as dos dois participantes que
/// dizem alguma coisa, na ordem. Sem resposta não há falas.
pub fn gerar_conversa(resposta: Resposta<Vec<FalaProposta>>, a: &Npc, b: &Npc) -> (r: Vec<
    FalaProposta,
>)
    ensures
        falas_vistas(r@) == (match resposta {
            Resposta::Lida(fs) => falas_vistas(fs@).filter(fala_aproveitavel(a@.id, b@.id)),
            _ => Seq::empty(),
        }),
{
    let mut r: Vec<FalaProposta> = Vec::new();
    assert(falas_vistas(r@) =~= Seq::<(Seq<char>, Seq<char>)>::empty());
    match resposta {
        Resposta::Lida(fs) => {
            let ghost vs = falas_vistas(fs@);
            let ghost teste = fala_aproveitavel(a@.id, b@.id);
            let mut i: usize = 0;
            proof {
                reveal(Seq::filter);
                assert(vs.take(0) =~= Seq::<(Seq<char>, Seq<char>)>::empty());
            }
            while i < fs.len()
                invariant
                    i <= fs@.len(),
                    vs == falas_vistas(fs@),
                    teste == fala_aproveitavel(a@.id, b@.id),
                    falas_vistas(r@) == vs.take(i as int).filter(teste),
                decreases fs@.len() - i,
            {
                let ghost antes = r@;
                proof {
                    reveal(Seq::filter);
                    assert(vs.take(i + 1).drop_last() =~= vs.take(i as int));
                    assert(vs.take(i + 1).last() == vs[i as int]);
                }
                let f = &fs[i];
                let dele = mesmo_texto(f.npc_id.as_str(), a.id.as_str()) || mesmo_texto(
                    f.npc_id.as_str(),
                    b.id.as_str(),
                );
                if dele && !so_espaco(f.texto.as_str()) {
                    r.push(FalaProposta { npc_id: f.npc_id.clone(), texto: f.texto.clone() });
                    assert(falas_vistas(r@) =~= falas_vistas(antes).push(vs[i as int]));
                }
                i += 1;
            }
            assert(vs.take(i as int) =~= vs);
        },
        Resposta::Falha => {},
        Resposta::Ilegivel => {},
    }
    r
}

/// O que conta o evento de uma fala.
pub open spec fn fato_dialogo(npc_id: Seq<char>, turno: u64, texto: Seq<char>) -> Fato {
    Fato {
        event_type: EventType::Dialogo,
        source: npc_id,
        turn: turno,
        payload: vazio().insert("texto"@, ValorView::Texto(texto)),
    }
}

/// O evento de uma fala.
pub fn evento_dialogo(npc_id: &str, turno: u64, texto: &str) -> (e: Event)
    ensures
        e.fato() == fato_dialogo(npc_id@, turno, texto@),
        identificador_valido(e.event_id),
{
    let payload: Objeto = Tabela::new();
    let payload = payload.com("texto", Valor::de_texto(texto));
    Event::new(EventType::Dialogo, npc_id, turno, payload)
}

/// O evento de uma fala ambiente já revisada; uma fala que repete uma frase
/// recente é descartada e a conversa segue.
pub fn fala_ambiente(npc_id: &str, turno: u64, texto: &str, repetida: bool) -> (r: Option<Event>)
    ensures
        match r {
            Some(e) => !repetida && e.fato() == fato_dialogo(npc_id@, turno, texto@)
                && identificador_valido(e.event_id),
            None => repetida,
        },
{
    if repetida {
        None
    } else {
        Some(evento_dialogo(npc_id, turno, texto))
    }
}

// ---------------------------------------------------------------------------
// Leis das escolhas
// ---------------------------------------------------------------------------

/// Os locais que se sorteiam são exatamente os que têm alguém que pode agir, cada
/// um uma vez.
pub proof fn lei_locais(npcs: Seq<NpcView>)
    ensures
        forall|local: Seq<char>|
            #[trigger] locais(npcs).contains(local) <==> exists|i: int|
                0 <= i < npcs.len() && (#[trigger] npcs[i]).location_id == local && elegivel()(
                    npcs[i],
                ),
        locais(npcs).no_duplicates(),
    decreases npcs.len(),
{
    if npcs.len() > 0 {
        let resto = npcs.drop_last();
        let n = npcs.len() - 1;
        lei_locais(resto);
        let antes = locais(resto);
        let agora = locais(npcs);
        assert forall|local: Seq<char>| #[trigger] agora.contains(local) <==> exists|i: int|
            0 <= i < npcs.len() && (#[trigger] npcs[i]).location_id == local && elegivel()(
                npcs[i],
            ) by {
            lema_locais(npcs, local);
            if exists|i: int|
                0 <= i < npcs.len() && (#[trigger] npcs[i]).location_id == local && elegivel()(
                    npcs[i],
                ) {
                let i = choose|i: int|
                    0 <= i < npcs.len() && (#[trigger] npcs[i]).location_id == local
                        && elegivel()(npcs[i]);
                if i < n {
                    assert(resto[i] == npcs[i]);
                    assert(antes.contains(local));
                }
                if antes.contains(local) {
                    let k = choose|k: int| 0 <= k < antes.len() && antes[k] == local;
                    assert(agora[k] == local);
                } else {
                    assert(agora[antes.len() as int] == local);
                }
            }
        }
    }
}

/// Os candidatos de um local são todos os que estão nele, são autônomos, não estão
/// mortos e não podem lutar, na ordem, e mais ninguém.
pub proof fn lei_candidatos(npcs: Seq<NpcView>, location_id: Seq<char>) -> (posicoes: Seq<int>)
    ensures
        ({
            let r = candidatos_em(npcs, location_id);
            &&& posicoes.len() == r.len()
            &&& forall|k: int|
                0 <= k < r.len() ==> 0 <= #[trigger] posicoes[k] < npcs.len() && r[k]
                    == npcs[posicoes[k]]
            &&& forall|a: int, b: int|
                0 <= a < b < posicoes.len() ==> #[trigger] posicoes[a] < #[trigger] posicoes[b]
            &&& forall|i: int|
                0 <= i < npcs.len() ==> (posicoes.contains(i) <==> {
                    &&& (#[trigger] npcs[i]).location_id == location_id
                    &&& npcs[i].autonomo
                    &&& npcs[i].status != NpcStatus::Morto
                    &&& npcs[i].hp is None || npcs[i].classe_armadura is None
                })
        }),
{
    let posicoes = lei_filtro(npcs, elegivel_em(location_id));
    assert forall|i: int| 0 <= i < npcs.len() && posicoes.contains(i) implies elegivel_em(
        location_id,
    )(#[trigger] npcs[i]) by {
        let k = choose|k: int| 0 <= k < posicoes.len() && posicoes[k] == i;
        assert(posicoes[k] == i);
    }
    assert forall|i: int|
        0 <= i < npcs.len() && elegivel_em(location_id)(#[trigger] npcs[i]) implies posicoes.contains(
        i,
    ) by {}
    posicoes
}

/// Com quem se conversa: o primeiro candidato com o identificador sugerido, que
/// não é o do ator; e há um exatamente quando algum candidato é esse.
pub proof fn lei_interlocutor(
    candidatos: Seq<NpcView>,
    id: Seq<char>,
    ator_id: Seq<char>,
    de: int,
)
    requires
        0 <= de,
    ensures
        interlocutor(candidatos, id, ator_id, de) matches Some(b) ==> b.id == id && id != ator_id
            && candidatos.contains(b),
        interlocutor(candidatos, id, ator_id, de) is Some <==> id != ator_id && exists|i: int|
            de <= i < candidatos.len() && (#[trigger] candidatos[i]).id == id,
    decreases candidatos.len() - de,
{
    if de < candidatos.len() && !(candidatos[de].id == id && candidatos[de].id != ator_id) {
        lei_interlocutor(candidatos, id, ator_id, de + 1);
        if id != ator_id && exists|i: int|
            de <= i < candidatos.len() && (#[trigger] candidatos[i]).id == id {
            let i = choose|i: int|
                de <= i < candidatos.len() && (#[trigger] candidatos[i]).id == id;
            assert(i > de);
        }
    } else if de < candidatos.len() {
        assert(candidatos.contains(candidatos[de]));
        assert(candidatos[de].id == id);
    }
}

/// O que um tick faz: nada sem sugestão lida; uma conversa quando se sugere uma
/// com outro candidato presente; e em todo outro caso uma linha no log, de
/// ambiente se a conversa sugerida não tem com quem ser, senão do tipo sugerido. A
/// linha diz o detalhe, ou que o ator fez algo no local se o detalhe é vazio.
pub proof fn lei_tick(
    ator: NpcView,
    location_id: Seq<char>,
    candidatos: Seq<NpcView>,
    resposta: Resposta<AcaoAutonomaProposta>,
)
    ensures
        ({
            let r = acao_do_tick(ator, location_id, candidatos, resposta);
            match resposta {
                Resposta::Lida(p) => {
                    let conversa = p.tipo@ == "conversar"@;
                    let ha_com_quem = p.participante_b_id@ != ator.id && exists|i: int|
                        0 <= i < candidatos.len() && (#[trigger] candidatos[i]).id
                            == p.participante_b_id@;
                    &&& r is Conversar <==> conversa && ha_com_quem
                    &&& r matches AcaoDoTickView::Conversar(b) ==> b.id == p.participante_b_id@
                        && candidatos.contains(b)
                    &&& !(conversa && ha_com_quem) ==> r == AcaoDoTickView::Registrar {
                        tipo: if conversa {
                            "ambiente"@
                        } else {
                            p.tipo@
                        },
                        descricao: if em_branco(p.detalhe@) {
                            ator.nome + " fez algo em "@ + location_id
                        } else {
                            p.detalhe@
                        },
                    }
                },
                _ => r is Nada,
            }
        }),
{
    match resposta {
        Resposta::Lida(p) => {
            lei_interlocutor(candidatos, p.participante_b_id@, ator.id, 0);
        },
        _ => {},
    }
}

/// Da conversa ficam todas as falas dos dois participantes que dizem alguma coisa,
/// na ordem, e nenhuma outra.
pub proof fn lei_falas_da_conversa(
    falas: Seq<(Seq<char>, Seq<char>)>,
    a_id: Seq<char>,
    b_id: Seq<char>,
) -> (posicoes: Seq<int>)
    ensures
        ({
            let r = falas.filter(fala_aproveitavel(a_id, b_id));
            &&& posicoes.len() == r.len()
            &&& forall|k: int|
                0 <= k < r.len() ==> 0 <= #[trigger] posicoes[k] < falas.len() && r[k]
                    == falas[posicoes[k]]
            &&& forall|a: int, b: int|
                0 <= a < b < posicoes.len() ==> #[trigger] posicoes[a] < #[trigger] posicoes[b]
            &&& forall|i: int|
                0 <= i < falas.len() ==> (posicoes.contains(i) <==> ((#[trigger] falas[i]).0 == a_id
                    || falas[i].0 == b_id) && !em_branco(falas[i].1))
        }),
{
    let posicoes = lei_filtro(falas, fala_aproveitavel(a_id, b_id));
    assert forall|i: int| 0 <= i < falas.len() && posicoes.contains(i) implies fala_aproveitavel(
        a_id,
        b_id,
    )(#[trigger] falas[i]) by {
        let k = choose|k: int| 0 <= k < posicoes.len() && posicoes[k] == i;
        assert(posicoes[k] == i);
    }
    assert forall|i: int|
        0 <= i < falas.len() && fala_aproveitavel(a_id, b_id)(#[trigger] falas[i]) implies posicoes.contains(
        i,
    ) by {}
    posicoes
}

/// A pergunta do tick diz quem age e apresenta cada candidato com o seu papel.
pub proof fn lei_pergunta_do_tick(
    ator: NpcView,
    location_id: Seq<char>,
    candidatos: Seq<NpcView>,
    i: int,
)
    requires
        0 <= i < candidatos.len(),
    ensures
        ("Personagem agindo: "@ + ator.nome + " (id: "@ + ator.id + ")"@).is_prefix_of(
            entrada_do_tick(ator, location_id, candidatos),
        ),
        tem_trecho(
            entrada_do_tick(ator, location_id, candidatos),
            candidatos[i].nome + " (id: "@ + candidatos[i].id + ", papel: "@ + (
            if candidatos[i].descricao.len() == 0 {
                "sem papel definido"@
            } else {
                candidatos[i].descricao
            }) + ")"@,
        ),
{
    let s = entrada_do_tick(ator, location_id, candidatos);
    let lista = juntado(apresentacoes_com_papel(candidatos), "; "@);
    let cabeca = "Personagem agindo: "@ + ator.nome + " (id: "@ + ator.id
        + ")\nOutros presentes em "@ + location_id + ": "@;
    reveal_strlit(")");
    reveal_strlit(")\nOutros presentes em ");
    lei_juntado_tem_as_partes(apresentacoes_com_papel(candidatos), "; "@, i);
    lema_tem_meio(cabeca, lista, Seq::empty());
    assert(cabeca + lista + Seq::<char>::empty() =~= s);
    lema_tem_trecho_de_trecho(s, lista, apresentacao_com_papel(candidatos[i]));
}

/// O narrador de uma conversa sabe de cada participante o nome, o id e a
/// descrição, se há, e tudo o que o move.
pub proof fn lei_participante_apresentado(n: NpcView, i: int)
    ensures
        (n.nome + " (id: "@ + n.id + ")"@).is_prefix_of(participante(n)),
        n.descricao.len() > 0 ==> tem_trecho(participante(n), n.descricao),
        n.descricao.len() == 0 ==> tem_trecho(participante(n), "sem descricao"@),
        0 <= i < n.interesses.len() ==> tem_trecho(participante(n), n.interesses[i]),
        n.interesses.len() == 0 && n.descricao.len() > 0 ==> n.descricao.is_suffix_of(
            participante(n),
        ),
{
    let s = participante(n);
    let cabeca = n.nome + " (id: "@ + n.id + ") — "@;
    reveal_strlit(")");
    reveal_strlit(") — ");
    assert((n.nome + " (id: "@ + n.id + ")"@).is_prefix_of(s));
    lema_tem_meio(cabeca, descricao_ou_falta(n), motivacoes(n));
    if 0 <= i < n.interesses.len() {
        let lista = juntado(n.interesses, "; "@);
        let antes = cabeca + descricao_ou_falta(n) + " Motivações: "@;
        lema_tem_meio(antes, lista, "."@);
        assert(antes + lista + "."@ =~= s);
        lei_juntado_tem_as_partes(n.interesses, "; "@, i);
        lema_tem_trecho_de_trecho(s, lista, n.interesses[i]);
    }
}

/// O narrador de uma conversa conhece os dois que conversam.
pub proof fn lei_narrador_conhece_os_dois(a: NpcView, b: NpcView)
    ensures
        tem_trecho(prompt_da_conversa(a, b), participante(a) + "\n"@ + participante(b)),
{
    let meio = participante(a) + "\n"@ + participante(b);
    let antes =
        "Você está narrando uma conversa breve e natural entre dois personagens de um RPG de fantasia medieval, sem o jogador presente.\n"@;
    let s = prompt_da_conversa(a, b);
    let depois = s.skip((antes + meio).len() as int);
    lema_tem_meio(antes, meio, depois);
    assert(antes + meio + depois =~= s);
}

/// O evento de uma fala guarda quem falou, quando, e só a fala, inteira.
pub proof fn lei_fala_registrada(npc_id: Seq<char>, turno: u64, texto: Seq<char>)
    ensures
        ({
            let f = fato_dialogo(npc_id, turno, texto);
            &&& f.event_type == EventType::Dialogo && f.source == npc_id && f.turn == turno
            &&& forall|campo: Seq<char>| #[trigger]
                f.payload.contains_key(campo) <==> campo == "texto"@
            &&& f.payload["texto"@] == ValorView::Texto(texto)
        }),
{
}

} // verus!
