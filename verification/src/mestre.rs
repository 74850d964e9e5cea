//! O Mestre de Jogo: o único papel que cria e enriquece fatos de mundo, decide
//! quando testar e quando um combate começa. O que ele sugere é sempre trazido
//! para dentro dos limites das regras; o resultado de testes e combates nunca é
//! dele.

use crate::combate::TipoAcaoCombate;
use crate::llm::{Pedido, Resposta};
use crate::state::{fichas_ref, Cena, CenaView, Npc, NpcView};
use crate::texto::{
    juntado, juntar, lei_juntado_tem_as_partes, lema_tem_meio, lema_tem_trecho_de_trecho,
    mesmo_texto, para_chars, tem_trecho, textos,
};
use vstd::prelude::*;

verus! {

// ---------------------------------------------------------------------------
// Cena
// ---------------------------------------------------------------------------

/// As instruções de quem cria uma cena.
pub const SYSTEM_PROMPT_CRIACAO: &'static str = r#"Você é o Mestre de Jogo de um RPG de fantasia medieval. Dado um identificador técnico de local, invente um nome evocativo e uma descrição curta (1-2 frases) para esse lugar.
Responda APENAS com um JSON no formato {"nome": "...", "descricao": "..."}."#;

/// Uma cena sugerida.
#[derive(Debug, Clone)]
pub struct CenaGerada {
    pub nome: String,
    pub descricao: String,
}

/// O texto com espaços no lugar de sublinhados.
pub open spec fn sem_sublinhados(s: Seq<char>) -> Seq<char> {
    s.map_values(
        |c: char|
            if c == '_' {
                ' '
            } else {
                c
            },
    )
}

/// A cena nova de um local: a sugerida, ou uma que o identificador nomeia. Uma
/// cena nova não tem fatos.
pub open spec fn cena_nova(location_id: Seq<char>, resposta: Resposta<CenaGerada>) -> CenaView {
    CenaView {
        location_id,
        nome: match resposta {
            Resposta::Lida(g) => g.nome@,
            _ => sem_sublinhados(location_id),
        },
        descricao: match resposta {
            Resposta::Lida(g) => g.descricao@,
            _ => "Um lugar ainda pouco descrito."@,
        },
        fatos_estabelecidos: Seq::empty(),
    }
}

fn trocar_sublinhados(s: &str) -> (r: String)
    ensures
        r@ == sem_sublinhados(s@),
{
    let cs = para_chars(s);
    let mut r = String::new();
    let mut i: usize = 0;
    while i < cs.len()
        invariant
            i <= cs@.len(),
            cs@ == s@,
            r@ == sem_sublinhados(s@.take(i as int)),
        decreases cs@.len() - i,
    {
        if cs[i] == '_' {
            r.push(' ');
        } else {
            r.push(cs[i]);
        }
        assert(r@ =~= sem_sublinhados(s@.take(i + 1)));
        i += 1;
    }
    assert(s@.take(i as int) =~= s@);
    r
}

/// O que falta para resolver a cena de um local: nada, ela já existe, ou pedir
/// ao Mestre de Jogo que a crie.
#[derive(Debug)]
pub enum Resolucao {
    Existe(Cena),
    Criar(Pedido),
}

/// Resolve a cena de um local: a que já existe, ou o pedido de uma nova.
pub fn resolver_cena(existente: Option<Cena>, location_id: &str) -> (r: Resolucao)
    ensures
        match existente {
            Some(c) => r == Resolucao::Existe(c),
            None => r matches Resolucao::Criar(p) && p.system@ == SYSTEM_PROMPT_CRIACAO@
                && p.user@ == "Identificador do local: "@ + location_id@,
        },
{
    match existente {
        Some(c) => Resolucao::Existe(c),
        None => {
            let mut user = "Identificador do local: ".to_string();
            user.append(location_id);
            Resolucao::Criar(Pedido { system: SYSTEM_PROMPT_CRIACAO.to_string(), user })
        },
    }
}

/// A cena nova de um local, a partir da resposta do Mestre de Jogo.
pub fn criar_cena(location_id: &str, resposta: Resposta<CenaGerada>) -> (c: Cena)
    ensures
        c@ == cena_nova(location_id@, resposta),
{
    let (nome, descricao) = match resposta {
        Resposta::Lida(g) => (g.nome, g.descricao),
        Resposta::Falha => (
            trocar_sublinhados(location_id),
            "Um lugar ainda pouco descrito.".to_string(),
        ),
        Resposta::Ilegivel => (
            trocar_sublinhados(location_id),
            "Um lugar ainda pouco descrito.".to_string(),
        ),
    };
    assert(textos(Seq::<String>::empty()) =~= Seq::<Seq<char>>::empty());
    Cena {
        location_id: location_id.to_string(),
        nome,
        descricao,
        fatos_estabelecidos: Vec::new(),
    }
}

// ---------------------------------------------------------------------------
// Testes de dados
// ---------------------------------------------------------------------------

/// As dificuldades que um teste pode ter.
pub const DIFICULDADE_MIN: u32 = 5;

pub const DIFICULDADE_MAX: u32 = 25;

/// As instruções de quem decide se uma ação exige teste.
pub const SYSTEM_PROMPT_VERIFICACAO: &'static str = r#"Você é o Mestre de Jogo de um RPG de fantasia medieval, seguindo regras de mesa clássicas (estilo D&D). Decida se a ação do jogador exige um teste de dados (skill check) e, se sim, qual atributo e dificuldade (DC).
Responda APENAS com um JSON no formato {"precisa_teste": bool, "atributo": "forca|destreza|constituicao|inteligencia|sabedoria|carisma", "dificuldade": 5 a 25, "descricao": "o que está sendo tentado, em poucas palavras"}.
Exija teste (precisa_teste: true) para ações com risco real de falha ou consequência: persuadir, enganar, escalar, arrombar, lutar, resistir a veneno/medo, notar algo escondido, equilibrar-se, etc.
NÃO exija teste (precisa_teste: false) para ações triviais, sociais neutras ou puramente narrativas: cumprimentar, andar, perguntar algo direto, observar o óbvio, comprar algo com dinheiro suficiente."#;

/// O que o Mestre de Jogo sugeriu sobre um teste.
#[derive(Debug, Clone)]
pub struct VerificacaoProposta {
    pub precisa_teste: bool,
    pub atributo: String,
    pub dificuldade: u32,
    pub descricao: String,
}

/// A decisão sobre o teste de uma ação, dentro dos limites das regras.
#[derive(Debug, Clone)]
pub struct VerificacaoTeste {
    pub precisa_teste: bool,
    pub atributo: String,
    pub dificuldade: u32,
    pub descricao: String,
}

/// O que uma [`VerificacaoTeste`] diz.
pub struct VerificacaoView {
    pub precisa_teste: bool,
    pub atributo: Seq<char>,
    pub dificuldade: u32,
    pub descricao: Seq<char>,
}

impl View for VerificacaoTeste {
    type V = VerificacaoView;

    open spec fn view(&self) -> VerificacaoView {
        VerificacaoView {
            precisa_teste: self.precisa_teste,
            atributo: self.atributo@,
            dificuldade: self.dificuldade,
            descricao: self.descricao@,
        }
    }
}

/// Um dos seis atributos das regras.
pub open spec fn atributo_valido(s: Seq<char>) -> bool {
    ||| s == "forca"@
    ||| s == "destreza"@
    ||| s == "constituicao"@
    ||| s == "inteligencia"@
    ||| s == "sabedoria"@
    ||| s == "carisma"@
}

/// Se o atributo é um dos seis das regras.
pub fn eh_atributo_valido(s: &str) -> (r: bool)
    ensures
        r == atributo_valido(s@),
{
    mesmo_texto(s, "forca") || mesmo_texto(s, "destreza") || mesmo_texto(s, "constituicao")
        || mesmo_texto(s, "inteligencia") || mesmo_texto(s, "sabedoria") || mesmo_texto(
        s,
        "carisma",
    )
}

/// A dificuldade trazida para dentro dos limites.
pub open spec fn dificuldade_limitada(d: u32) -> u32 {
    if d < DIFICULDADE_MIN {
        DIFICULDADE_MIN
    } else if d > DIFICULDADE_MAX {
        DIFICULDADE_MAX
    } else {
        d
    }
}

/// A decisão de não testar.
pub open spec fn sem_teste() -> VerificacaoView {
    VerificacaoView {
        precisa_teste: false,
        atributo: Seq::empty(),
        dificuldade: 0,
        descricao: Seq::empty(),
    }
}

/// A decisão que uma sugestão dá. Só uma sugestão lida que pede teste dá em
/// teste; um atributo desconhecido vira `geral`.
pub open spec fn verificacao(resposta: Resposta<VerificacaoProposta>) -> VerificacaoView {
    match resposta {
        Resposta::Lida(p) => if p.precisa_teste {
            VerificacaoView {
                precisa_teste: true,
                atributo: if atributo_valido(p.atributo@) {
                    p.atributo@
                } else {
                    "geral"@
                },
                dificuldade: dificuldade_limitada(p.dificuldade),
                descricao: p.descricao@,
            }
        } else {
            sem_teste()
        },
        _ => sem_teste(),
    }
}

/// A pergunta sobre o teste de uma ação.
pub fn pedido_de_verificacao(acao: &str) -> (p: Pedido)
    ensures
        p.system@ == SYSTEM_PROMPT_VERIFICACAO@,
        p.user@ == acao@,
{
    Pedido { system: SYSTEM_PROMPT_VERIFICACAO.to_string(), user: acao.to_string() }
}

/// Decide se a ação exige um teste, nunca o resultado dele.
pub fn avaliar_verificacao(resposta: Resposta<VerificacaoProposta>) -> (v: VerificacaoTeste)
    ensures
        v@ == verificacao(resposta),
{
    match resposta {
        Resposta::Lida(p) => if p.precisa_teste {
            let atributo = if eh_atributo_valido(p.atributo.as_str()) {
                p.atributo
            } else {
                "geral".to_string()
            };
            let dificuldade: u32 = if p.dificuldade < DIFICULDADE_MIN {
                DIFICULDADE_MIN
            } else if p.dificuldade > DIFICULDADE_MAX {
                DIFICULDADE_MAX
            } else {
                p.dificuldade
            };
            return VerificacaoTeste {
                precisa_teste: true,
                atributo,
                dificuldade,
                descricao: p.descricao,
            };
        },
        Resposta::Falha => {},
        Resposta::Ilegivel => {},
    }
    VerificacaoTeste {
        precisa_teste: false,
        atributo: String::new(),
        dificuldade: 0,
        descricao: String::new(),
    }
}

/// Toda decisão de testar tem dificuldade de cinco a vinte e cinco e um
/// atributo das regras ou `geral`; toda decisão de não testar é a mesma.
pub proof fn lei_verificacao_nos_limites(resposta: Resposta<VerificacaoProposta>)
    ensures
        verificacao(resposta).precisa_teste ==> DIFICULDADE_MIN <= verificacao(resposta).dificuldade
            <= DIFICULDADE_MAX && (atributo_valido(verificacao(resposta).atributo) || verificacao(
            resposta,
        ).atributo == "geral"@),
        !verificacao(resposta).precisa_teste ==> verificacao(resposta) == sem_teste(),
{
}

// ---------------------------------------------------------------------------
// Combate
// ---------------------------------------------------------------------------

/// As instruções de quem decide se um combate começa.
pub const SYSTEM_PROMPT_INICIO_COMBATE: &'static str = r#"Você é o Mestre de Jogo de um RPG de fantasia medieval. Existem criaturas hostis presentes na cena. Decida se a ação do jogador inicia combate contra uma delas.
Responda APENAS com um JSON no formato {"inicia_combate": bool, "alvo_id": "id da criatura ou vazio"}.
Só inicie combate se o jogador claramente ataca, ameaça fisicamente, ou é atacado primeiro. Conversa, negociação ou observação NÃO inicia combate."#;

/// O que o Mestre de Jogo sugeriu sobre o começo de um combate.
#[derive(Debug, Clone)]
pub struct InicioCombateProposto {
    pub inicia_combate: bool,
    pub alvo_id: String,
}

/// Como o Mestre de Jogo vê um combatente.
pub open spec fn apresentacao(n: NpcView) -> Seq<char> {
    n.nome + " (id: "@ + n.id + ")"@
}

/// Como o Mestre de Jogo vê os combatentes.
pub open spec fn apresentacoes(ns: Seq<NpcView>) -> Seq<Seq<char>> {
    ns.map_values(|n: NpcView| apresentacao(n))
}

/// A pergunta sobre o começo de um combate.
pub open spec fn entrada_do_inicio(acao: Seq<char>, combatentes: Seq<NpcView>) -> Seq<char> {
    "Criaturas hostis presentes: "@ + juntado(apresentacoes(combatentes), ", "@)
        + "\nAção do jogador: "@ + acao
}

/// Algum dos NPCs tem este `id`.
pub open spec fn presente(ns: Seq<NpcView>, id: Seq<char>) -> bool {
    exists|i: int| 0 <= i < ns.len() && (#[trigger] ns[i]).id == id
}

/// A pergunta sobre o começo de um combate; sem combatentes não se pergunta.
pub fn pedido_de_inicio(acao: &str, combatentes: &[&Npc]) -> (r: Option<Pedido>)
    ensures
        match r {
            Some(p) => combatentes@.len() > 0 && p.system@ == SYSTEM_PROMPT_INICIO_COMBATE@
                && p.user@ == entrada_do_inicio(acao@, fichas_ref(combatentes@)),
            None => combatentes@.len() == 0,
        },
{
    if combatentes.len() == 0 {
        return None;
    }
    let ghost ns = fichas_ref(combatentes@);
    let mut partes: Vec<String> = Vec::new();
    let mut i: usize = 0;
    while i < combatentes.len()
        invariant
            i <= combatentes@.len(),
            ns == fichas_ref(combatentes@),
            partes@.len() == i,
            forall|j: int| 0 <= j < i ==> (#[trigger] partes@[j])@ == apresentacao(ns[j]),
        decreases combatentes@.len() - i,
    {
        let n: &Npc = combatentes[i];
        let mut s = n.nome.clone();
        s.append(" (id: ");
        s.append(n.id.as_str());
        s.append(")");
        assert(ns[i as int] == n@);
        partes.push(s);
        i += 1;
    }
    assert(textos(partes@) =~= apresentacoes(ns));
    let mut user = "Criaturas hostis presentes: ".to_string();
    user.append(juntar(partes.as_slice(), ", ").as_str());
    user.append("\nAção do jogador: ");
    user.append(acao);
    Some(Pedido { system: SYSTEM_PROMPT_INICIO_COMBATE.to_string(), user })
}

/// Contra quem o combate começa: só contra quem está entre os combatentes.
pub open spec fn alvo_do_combate(
    resposta: Resposta<InicioCombateProposto>,
    combatentes: Seq<NpcView>,
) -> Option<Seq<char>> {
    match resposta {
        Resposta::Lida(p) => if p.inicia_combate && presente(combatentes, p.alvo_id@) {
            Some(p.alvo_id@)
        } else {
            None
        },
        _ => None,
    }
}

/// Decide se a ação inicia combate, e contra quem.
pub fn avaliar_inicio_combate(
    resposta: Resposta<InicioCombateProposto>,
    combatentes: &[&Npc],
) -> (r: Option<String>)
    ensures
        crate::state::texto_opcional(r) == alvo_do_combate(resposta, fichas_ref(combatentes@)),
{
    let ghost ns = fichas_ref(combatentes@);
    match resposta {
        Resposta::Lida(p) => {
            if !p.inicia_combate {
                return None;
            }
            let mut i: usize = 0;
            while i < combatentes.len()
                invariant
                    i <= combatentes@.len(),
                    ns == fichas_ref(combatentes@),
                    resposta == Resposta::Lida(p),
                    p.inicia_combate,
                    forall|j: int| 0 <= j < i ==> (#[trigger] ns[j]).id != p.alvo_id@,
                decreases combatentes@.len() - i,
            {
                let n: &Npc = combatentes[i];
                assert(ns[i as int] == n@);
                if mesmo_texto(n.id.as_str(), p.alvo_id.as_str()) {
                    return Some(n.id.clone());
                }
                i += 1;
            }
            None
        },
        Resposta::Falha => None,
        Resposta::Ilegivel => None,
    }
}

/// Um combate só começa contra um dos combatentes presentes, seja qual for a
/// resposta do modelo.
pub proof fn lei_alvo_presente(
    resposta: Resposta<InicioCombateProposto>,
    combatentes: Seq<NpcView>,
)
    ensures
        alvo_do_combate(resposta, combatentes) is Some ==> presente(
            combatentes,
            alvo_do_combate(resposta, combatentes)->0,
        ),
        combatentes.len() == 0 ==> alvo_do_combate(resposta, combatentes) is None,
{
}

/// As instruções de quem classifica uma ação em combate.
pub const SYSTEM_PROMPT_ACAO_COMBATE: &'static str = r#"Você é o Mestre de Jogo de um RPG de fantasia medieval. O jogador está em combate. Classifique a ação dele.
Responda APENAS com um JSON no formato {"tipo": "atacar" | "fugir" | "outro"}."#;

/// Como o Mestre de Jogo classificou uma ação em combate.
#[derive(Debug, Clone)]
pub struct AcaoCombateProposta {
    pub tipo: String,
}

/// O tipo de uma ação: uma consulta que falhou vale como ataque; uma resposta
/// que não se lê, ou de outro tipo, não é ataque nem fuga.
pub open spec fn tipo_da_acao(resposta: Resposta<AcaoCombateProposta>) -> TipoAcaoCombate {
    match resposta {
        Resposta::Falha => TipoAcaoCombate::Atacar,
        Resposta::Ilegivel => TipoAcaoCombate::Outro,
        Resposta::Lida(p) => if p.tipo@ == "atacar"@ {
            TipoAcaoCombate::Atacar
        } else if p.tipo@ == "fugir"@ {
            TipoAcaoCombate::Fugir
        } else {
            TipoAcaoCombate::Outro
        },
    }
}

/// A pergunta sobre uma ação em combate.
pub fn pedido_de_acao(acao: &str) -> (p: Pedido)
    ensures
        p.system@ == SYSTEM_PROMPT_ACAO_COMBATE@,
        p.user@ == acao@,
{
    Pedido { system: SYSTEM_PROMPT_ACAO_COMBATE.to_string(), user: acao.to_string() }
}

/// Classifica a ação do jogador dentro de um combate em andamento.
pub fn avaliar_acao_combate(resposta: Resposta<AcaoCombateProposta>) -> (t: TipoAcaoCombate)
    ensures
        t == tipo_da_acao(resposta),
{
    match resposta {
        Resposta::Falha => TipoAcaoCombate::Atacar,
        Resposta::Ilegivel => TipoAcaoCombate::Outro,
        Resposta::Lida(p) => if mesmo_texto(p.tipo.as_str(), "atacar") {
            TipoAcaoCombate::Atacar
        } else if mesmo_texto(p.tipo.as_str(), "fugir") {
            TipoAcaoCombate::Fugir
        } else {
            TipoAcaoCombate::Outro
        },
    }
}

// ---------------------------------------------------------------------------
// Leis das decisões
// ---------------------------------------------------------------------------

/// Só há teste quando uma sugestão lida o pede; então a descrição é a sugerida, a
/// dificuldade é a sugerida, ou o limite mais próximo dela de cinco a vinte e
/// cinco, e o atributo é o sugerido se é um dos seis das regras.
pub proof fn lei_verificacao(resposta: Resposta<VerificacaoProposta>)
    ensures
        ({
            let v = verificacao(resposta);
            &&& v.precisa_teste <==> (resposta matches Resposta::Lida(p) && p.precisa_teste)
            &&& !v.precisa_teste ==> v.atributo.len() == 0 && v.dificuldade == 0
                && v.descricao.len() == 0
            &&& v.precisa_teste ==> {
                let p = resposta->Lida_0;
                let conhecido = seq![
                    "forca"@,
                    "destreza"@,
                    "constituicao"@,
                    "inteligencia"@,
                    "sabedoria"@,
                    "carisma"@,
                ].contains(p.atributo@);
                &&& v.descricao == p.descricao@
                &&& 5 <= p.dificuldade <= 25 ==> v.dificuldade == p.dificuldade
                &&& p.dificuldade < 5 ==> v.dificuldade == 5
                &&& p.dificuldade > 25 ==> v.dificuldade == 25
                &&& conhecido ==> v.atributo == p.atributo@
                &&& !conhecido ==> v.atributo == "geral"@
            }
        }),
{
    if resposta is Lida {
        let a = resposta->Lida_0.atributo@;
        let todos = seq![
            "forca"@,
            "destreza"@,
            "constituicao"@,
            "inteligencia"@,
            "sabedoria"@,
            "carisma"@,
        ];
        assert(todos[0] == "forca"@ && todos[1] == "destreza"@ && todos[2] == "constituicao"@);
        assert(todos[3] == "inteligencia"@ && todos[4] == "sabedoria"@ && todos[5] == "carisma"@);
        if todos.contains(a) {
            let i = choose|i: int| 0 <= i < todos.len() && todos[i] == a;
            assert(atributo_valido(a));
        }
    }
}

/// Um combate começa exatamente quando uma sugestão lida o pede contra alguém que
/// está entre os combatentes, e é contra esse.
pub proof fn lei_inicio_de_combate(
    resposta: Resposta<InicioCombateProposto>,
    combatentes: Seq<NpcView>,
)
    ensures
        ({
            let alvo = alvo_do_combate(resposta, combatentes);
            &&& alvo is Some <==> (resposta matches Resposta::Lida(p) && p.inicia_combate
                && exists|i: int|
                0 <= i < combatentes.len() && (#[trigger] combatentes[i]).id == p.alvo_id@)
            &&& alvo is Some ==> alvo == Some(resposta->Lida_0.alvo_id@)
        }),
{
}

/// A ação é ataque ou fuga quando a sugestão diz isso; uma consulta que falhou
/// vale como ataque, e tudo o mais é outra coisa.
pub proof fn lei_tipo_da_acao(resposta: Resposta<AcaoCombateProposta>)
    ensures
        tipo_da_acao(resposta) == TipoAcaoCombate::Atacar <==> resposta is Falha || (
        resposta matches Resposta::Lida(p) && p.tipo@ == "atacar"@),
        tipo_da_acao(resposta) == TipoAcaoCombate::Fugir <==> (resposta matches Resposta::Lida(p)
            && p.tipo@ == "fugir"@),
{
    reveal_strlit("atacar");
    reveal_strlit("fugir");
    assert("atacar"@.len() != "fugir"@.len());
}

/// Uma cena nova é do local pedido e não tem fatos; o nome e a descrição são os
/// sugeridos ou, sem sugestão lida, o identificador com espaços no lugar dos
/// sublinhados e uma descrição padrão.
pub proof fn lei_cena_nova(location_id: Seq<char>, resposta: Resposta<CenaGerada>)
    ensures
        ({
            let c = cena_nova(location_id, resposta);
            &&& c.location_id == location_id
            &&& c.fatos_estabelecidos.len() == 0
            &&& resposta matches Resposta::Lida(g) ==> c.nome == g.nome@ && c.descricao
                == g.descricao@
            &&& !(resposta is Lida) ==> {
                &&& c.descricao == "Um lugar ainda pouco descrito."@
                &&& c.nome.len() == location_id.len()
                &&& forall|i: int|
                    0 <= i < c.nome.len() ==> #[trigger] c.nome[i] == (if location_id[i] == '_' {
                        ' '
                    } else {
                        location_id[i]
                    })
            }
        }),
{
}

/// A pergunta sobre o começo de um combate nomeia cada combatente, com o seu
/// identificador, e acaba na ação do jogador.
pub proof fn lei_pergunta_nomeia_combatentes(
    acao: Seq<char>,
    combatentes: Seq<NpcView>,
    i: int,
)
    requires
        0 <= i < combatentes.len(),
    ensures
        tem_trecho(
            entrada_do_inicio(acao, combatentes),
            combatentes[i].nome + " (id: "@ + combatentes[i].id + ")"@,
        ),
        entrada_do_inicio(acao, combatentes).skip(
            entrada_do_inicio(acao, combatentes).len() - acao.len(),
        ) == acao,
{
    let s = entrada_do_inicio(acao, combatentes);
    let lista = juntado(apresentacoes(combatentes), ", "@);
    let fim = "\nAção do jogador: "@ + acao;
    lei_juntado_tem_as_partes(apresentacoes(combatentes), ", "@, i);
    lema_tem_meio("Criaturas hostis presentes: "@, lista, fim);
    assert("Criaturas hostis presentes: "@ + lista + fim =~= s);
    lema_tem_trecho_de_trecho(s, lista, apresentacao(combatentes[i]));
    assert(s.skip(s.len() - acao.len()) =~= acao);
}

} // verus!
