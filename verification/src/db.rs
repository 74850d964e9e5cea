//! Estado Rígido persistido: o que se grava e o que se entende do que foi
//! gravado. O banco fica fora; aqui ficam as regras sobre as linhas dele.

use crate::events::Event;
use crate::state::{
    fichas, trocas, Cena, CenaView, EstadoEmocional, EstadoEmocionalView, Hp, MemoriaNpc,
    MemoriaView, Npc, NpcStatus, NpcView, Player, PlayerView,
};
use crate::texto::{contem, textos};
use vstd::prelude::*;

verus! {

/// Máximo de trocas mantidas na janela da memória; as que saem dela esperam a
/// consolidação, que as põe no resumo.
pub const MAX_TROCAS_MEMORIA: usize = 3;

/// A cada quantos turnos a memória de um par (NPC, jogador) é consolidada.
pub const TURNOS_POR_CONSOLIDACAO: u32 = 5;

/// Máximo de fatos por Cena. Os mais antigos saem.
pub const MAX_FATOS_POR_CENA: usize = 20;

/// Os últimos `n` elementos, ou todos se são menos.
pub open spec fn ultimos<T>(s: Seq<T>, n: int) -> Seq<T> {
    if s.len() > n {
        s.skip(s.len() - n)
    } else {
        s
    }
}

// ---------------------------------------------------------------------------
// JSON das colunas
// ---------------------------------------------------------------------------

/// O erro de leitura ou escrita de JSON.
#[verifier::external_type_specification]
#[verifier::external_body]
pub struct ExErroDeJson(serde_json::Error);

/// Uma coluna do banco não pôde ser lida ou escrita.
#[derive(Debug, Clone, Copy, PartialEq, Eq, Structural)]
pub enum ErroDeDados {
    JsonInvalido,
}

/// O JSON de uma lista de textos.
pub uninterp spec fn json_de_textos(lista: Seq<Seq<char>>) -> Seq<char>;

/// A lista de textos que um JSON diz, se é uma.
pub uninterp spec fn textos_do_json(json: Seq<char>) -> Option<Seq<Seq<char>>>;

/// O JSON de uma lista de pares de textos.
pub uninterp spec fn json_de_trocas(lista: Seq<(Seq<char>, Seq<char>)>) -> Seq<char>;

/// A lista de pares de textos que um JSON diz, se é uma.
pub uninterp spec fn trocas_do_json(json: Seq<char>) -> Option<Seq<(Seq<char>, Seq<char>)>>;

/// `serde_json::to_string` numa lista de textos: não falha, depende só dos
/// textos, e o que escreve é lido de volta como a mesma lista.
#[verifier::external_body]
fn escrever_textos(lista: &Vec<String>) -> (r: Result<String, serde_json::Error>)
    ensures
        r is Ok,
        r->Ok_0@ == json_de_textos(textos(lista@)),
        textos_do_json(r->Ok_0@) == Some(textos(lista@)),
{
    serde_json::to_string(lista)
}

/// `serde_json::from_str` para uma lista de textos: o que devolve, e se
/// devolve, depende só do JSON.
#[verifier::external_body]
fn ler_textos(json: &str) -> (r: Result<Vec<String>, serde_json::Error>)
    ensures
        match r {
            Ok(v) => textos_do_json(json@) == Some(textos(v@)),
            Err(_) => textos_do_json(json@) is None,
        },
{
    serde_json::from_str(json)
}

/// `serde_json::to_string` numa lista de pares de textos: não falha, depende só
/// dos textos, e o que escreve é lido de volta como a mesma lista.
#[verifier::external_body]
fn escrever_trocas(lista: &Vec<(String, String)>) -> (r: Result<String, serde_json::Error>)
    ensures
        r is Ok,
        r->Ok_0@ == json_de_trocas(trocas(lista@)),
        trocas_do_json(r->Ok_0@) == Some(trocas(lista@)),
{
    serde_json::to_string(lista)
}

/// `serde_json::from_str` para uma lista de pares de textos: o que devolve, e
/// se devolve, depende só do JSON.
#[verifier::external_body]
fn ler_trocas(json: &str) -> (r: Result<Vec<(String, String)>, serde_json::Error>)
    ensures
        match r {
            Ok(v) => trocas_do_json(json@) == Some(trocas(v@)),
            Err(_) => trocas_do_json(json@) is None,
        },
{
    serde_json::from_str(json)
}

// ---------------------------------------------------------------------------
// Memória
// ---------------------------------------------------------------------------

/// Uma linha da tabela de memórias, sem a coluna do estado emocional.
#[derive(Debug, Clone)]
pub struct LinhaMemoria {
    pub ctx: String,
    pub saidas: String,
    pub resumo: String,
    pub turnos_desde_consolidacao: i64,
}

/// Os elementos antes dos últimos `n`.
pub open spec fn anteriores<T>(s: Seq<T>, n: int) -> Seq<T> {
    if s.len() > n {
        s.take(s.len() - n)
    } else {
        Seq::empty()
    }
}

/// A memória depois de uma troca: a troca entra no fim da janela, as mais
/// antigas saem dela e esperam a consolidação, e conta mais um turno.
pub open spec fn com_troca(m: MemoriaView, prompt: Seq<char>, resposta: Seq<char>) -> MemoriaView {
    MemoriaView {
        ctx: ultimos(m.ctx.push((prompt, resposta)), MAX_TROCAS_MEMORIA as int),
        saidas: m.saidas + anteriores(
            m.ctx.push((prompt, resposta)),
            MAX_TROCAS_MEMORIA as int,
        ),
        turnos_desde_consolidacao: (m.turnos_desde_consolidacao + 1) as u32,
        ..m
    }
}

/// Registra uma troca na janela e conta um turno. Não persiste.
pub fn registrar_troca(memoria: &mut MemoriaNpc, prompt: String, resposta: String)
    requires
        old(memoria).turnos_desde_consolidacao < u32::MAX,
    ensures
        final(memoria)@ == com_troca(old(memoria)@, prompt@, resposta@),
{
    let ghost antes = memoria@;
    memoria.ctx.push((prompt, resposta));
    assert(trocas(memoria.ctx@) =~= antes.ctx.push((prompt@, resposta@)));
    let n: usize = memoria.ctx.len();
    if n > MAX_TROCAS_MEMORIA {
        let ghost cheia = memoria.ctx@;
        let ghost esperando = memoria.saidas@;
        let resto = memoria.ctx.split_off(n - MAX_TROCAS_MEMORIA);
        memoria.saidas.append(&mut memoria.ctx);
        memoria.ctx = resto;
        assert(trocas(memoria.ctx@) =~= trocas(cheia).skip(n - MAX_TROCAS_MEMORIA));
        assert(trocas(memoria.saidas@) =~= trocas(esperando) + trocas(cheia).take(
            n - MAX_TROCAS_MEMORIA,
        ));
    } else {
        assert(memoria@.saidas =~= antes.saidas + Seq::<(Seq<char>, Seq<char>)>::empty());
    }
    memoria.turnos_desde_consolidacao = memoria.turnos_desde_consolidacao + 1;
}

/// A linha guarda esta memória: as colunas de trocas são o JSON delas e são
/// lidas de volta como elas, e as outras colunas são os campos.
pub open spec fn linha_guarda(l: LinhaMemoria, m: MemoriaView) -> bool {
    &&& l.ctx@ == json_de_trocas(m.ctx)
    &&& trocas_do_json(l.ctx@) == Some(m.ctx)
    &&& l.saidas@ == json_de_trocas(m.saidas)
    &&& trocas_do_json(l.saidas@) == Some(m.saidas)
    &&& l.resumo@ == m.resumo
    &&& l.turnos_desde_consolidacao == m.turnos_desde_consolidacao
}

/// As colunas de uma memória.
pub fn salvar_memoria(memoria: &MemoriaNpc) -> (r: Result<LinhaMemoria, ErroDeDados>)
    ensures
        r is Ok,
        linha_guarda(r->Ok_0, memoria@),
{
    match (escrever_trocas(&memoria.ctx), escrever_trocas(&memoria.saidas)) {
        (Ok(ctx), Ok(saidas)) => Ok(
            LinhaMemoria {
                ctx,
                saidas,
                resumo: memoria.resumo.clone(),
                turnos_desde_consolidacao: memoria.turnos_desde_consolidacao as i64,
            },
        ),
        _ => Err(ErroDeDados::JsonInvalido),
    }
}

/// O estado emocional lido, ou o neutro se não se pôde ler.
pub open spec fn estado_ou_neutro(estado: Option<EstadoEmocional>) -> EstadoEmocionalView {
    match estado {
        Some(e) => e@,
        None => EstadoEmocionalView::neutro(),
    }
}

/// A memória que uma linha diz; quem não tem linha tem a memória vazia.
/// `estado` é o que se leu da coluna do estado emocional.
pub open spec fn memoria_da_linha(
    linha: Option<LinhaMemoria>,
    estado: EstadoEmocionalView,
) -> Result<MemoriaView, ErroDeDados> {
    match linha {
        None => Ok(MemoriaView::vazia()),
        Some(l) => match (trocas_do_json(l.ctx@), trocas_do_json(l.saidas@)) {
            (Some(ctx), Some(saidas)) => Ok(
                MemoriaView {
                    ctx,
                    saidas,
                    resumo: l.resumo@,
                    estado_emocional: estado,
                    turnos_desde_consolidacao: (l.turnos_desde_consolidacao as int % 0x1_0000_0000)
                        as u32,
                },
            ),
            _ => Err(ErroDeDados::JsonInvalido),
        },
    }
}

/// Lê uma memória.
pub fn get_memoria(linha: Option<LinhaMemoria>, estado: Option<EstadoEmocional>) -> (r: Result<
    MemoriaNpc,
    ErroDeDados,
>)
    ensures
        match memoria_da_linha(linha, estado_ou_neutro(estado)) {
            Ok(m) => r is Ok && r->Ok_0@ == m,
            Err(e) => r is Err && r->Err_0 == e,
        },
{
    match linha {
        None => Ok(MemoriaNpc::default()),
        Some(l) => {
            let ctx = match ler_trocas(l.ctx.as_str()) {
                Ok(v) => v,
                Err(_) => return Err(ErroDeDados::JsonInvalido),
            };
            let saidas = match ler_trocas(l.saidas.as_str()) {
                Ok(v) => v,
                Err(_) => return Err(ErroDeDados::JsonInvalido),
            };
            let estado_emocional = match estado {
                Some(e) => e,
                None => EstadoEmocional::default(),
            };
            let t: i64 = l.turnos_desde_consolidacao;
            let turnos: u32 = #[verifier::truncate] (t as u32);
            assert(turnos == t as int % 0x1_0000_0000) by {
                assert((t as u32) as int == (t as int) % 0x1_0000_0000) by (bit_vector);
            }
            Ok(MemoriaNpc {
                ctx,
                saidas,
                resumo: l.resumo,
                estado_emocional,
                turnos_desde_consolidacao: turnos,
            })
        },
    }
}

/// A janela nunca passa de três trocas: a nova é sempre a última, e as outras
/// são as últimas de antes, na ordem. O resumo e o estado emocional não mudam.
pub proof fn lei_janela_limitada(m: MemoriaView, prompt: Seq<char>, resposta: Seq<char>)
    ensures
        com_troca(m, prompt, resposta).ctx.len() <= MAX_TROCAS_MEMORIA,
        com_troca(m, prompt, resposta).ctx.last() == (prompt, resposta),
        m.ctx.len() < MAX_TROCAS_MEMORIA ==> com_troca(m, prompt, resposta).ctx == m.ctx.push(
            (prompt, resposta),
        ),
        m.ctx.len() >= MAX_TROCAS_MEMORIA ==> com_troca(m, prompt, resposta).ctx.drop_last()
            == ultimos(m.ctx, MAX_TROCAS_MEMORIA - 1),
        com_troca(m, prompt, resposta).resumo == m.resumo,
        com_troca(m, prompt, resposta).estado_emocional == m.estado_emocional,
{
    let cheia = m.ctx.push((prompt, resposta));
    if m.ctx.len() >= MAX_TROCAS_MEMORIA {
        assert(ultimos(cheia, MAX_TROCAS_MEMORIA as int).drop_last() =~= ultimos(
            m.ctx,
            MAX_TROCAS_MEMORIA - 1,
        ));
    }
}

/// Nenhuma troca se perde: o que espera a consolidação seguido da janela é o que
/// era antes, mais a troca nova no fim.
pub proof fn lei_nenhuma_troca_se_perde(m: MemoriaView, prompt: Seq<char>, resposta: Seq<char>)
    ensures
        ({
            let t = com_troca(m, prompt, resposta);
            t.saidas + t.ctx == (m.saidas + m.ctx).push((prompt, resposta))
        }),
{
    let t = com_troca(m, prompt, resposta);
    assert(t.saidas + t.ctx =~= (m.saidas + m.ctx).push((prompt, resposta)));
}

/// O que se salva de uma memória é lido de volta como a mesma memória, se a
/// coluna do estado emocional também é.
pub proof fn lei_memoria_salva_e_lida(l: LinhaMemoria, m: MemoriaView)
    requires
        linha_guarda(l, m),
    ensures
        memoria_da_linha(Some(l), m.estado_emocional) == Ok::<MemoriaView, ErroDeDados>(m),
{
}

// ---------------------------------------------------------------------------
// Cena
// ---------------------------------------------------------------------------

/// Uma linha da tabela de cenas.
#[derive(Debug, Clone)]
pub struct LinhaCena {
    pub nome: String,
    pub descricao: String,
    pub fatos: String,
}

/// A linha guarda esta cena.
pub open spec fn linha_guarda_cena(l: LinhaCena, c: CenaView) -> bool {
    &&& l.nome@ == c.nome
    &&& l.descricao@ == c.descricao
    &&& l.fatos@ == json_de_textos(c.fatos_estabelecidos)
    &&& textos_do_json(l.fatos@) == Some(c.fatos_estabelecidos)
}

/// As colunas de uma cena.
pub fn upsert_cena(cena: &Cena) -> (r: Result<LinhaCena, ErroDeDados>)
    ensures
        r is Ok,
        linha_guarda_cena(r->Ok_0, cena@),
{
    match escrever_textos(&cena.fatos_estabelecidos) {
        Ok(fatos) => Ok(
            LinhaCena { nome: cena.nome.clone(), descricao: cena.descricao.clone(), fatos },
        ),
        Err(_) => Err(ErroDeDados::JsonInvalido),
    }
}

/// A cena que uma linha diz, se há linha.
pub open spec fn cena_da_linha(location_id: Seq<char>, linha: Option<LinhaCena>) -> Result<
    Option<CenaView>,
    ErroDeDados,
> {
    match linha {
        None => Ok(None),
        Some(l) => match textos_do_json(l.fatos@) {
            None => Err(ErroDeDados::JsonInvalido),
            Some(fatos) => Ok(
                Some(
                    CenaView {
                        location_id,
                        nome: l.nome@,
                        descricao: l.descricao@,
                        fatos_estabelecidos: fatos,
                    },
                ),
            ),
        },
    }
}

/// O que uma cena opcional diz.
pub open spec fn cena_opcional(c: Option<Cena>) -> Option<CenaView> {
    match c {
        Some(c) => Some(c@),
        None => None,
    }
}

/// Lê a cena de um local.
pub fn get_cena(location_id: &str, linha: Option<LinhaCena>) -> (r: Result<
    Option<Cena>,
    ErroDeDados,
>)
    ensures
        match cena_da_linha(location_id@, linha) {
            Ok(c) => r is Ok && cena_opcional(r->Ok_0) == c,
            Err(e) => r is Err && r->Err_0 == e,
        },
{
    match linha {
        None => Ok(None),
        Some(l) => match ler_textos(l.fatos.as_str()) {
            Ok(fatos) => Ok(
                Some(
                    Cena {
                        location_id: location_id.to_string(),
                        nome: l.nome,
                        descricao: l.descricao,
                        fatos_estabelecidos: fatos,
                    },
                ),
            ),
            Err(_) => Err(ErroDeDados::JsonInvalido),
        },
    }
}

/// A cena com mais um fato; os mais antigos saem.
pub open spec fn com_fato(c: CenaView, fato: Seq<char>) -> CenaView {
    CenaView {
        fatos_estabelecidos: ultimos(c.fatos_estabelecidos.push(fato), MAX_FATOS_POR_CENA as int),
        ..c
    }
}

/// Acrescenta um fato a uma cena que já existe: devolve a cena a gravar, ou
/// nada se não há cena. Uma cena nunca é criada aqui.
pub fn adicionar_fato_a_cena(cena: Option<Cena>, fato: &str) -> (r: Option<Cena>)
    ensures
        cena_opcional(r) == (match cena {
            Some(c) => Some(com_fato(c@, fato@)),
            None => None,
        }),
{
    match cena {
        None => None,
        Some(c) => {
            let mut fatos = c.fatos_estabelecidos;
            fatos.push(fato.to_string());
            assert(textos(fatos@) =~= textos(c.fatos_estabelecidos@).push(fato@));
            let n: usize = fatos.len();
            if n > MAX_FATOS_POR_CENA {
                let ghost cheia = fatos@;
                fatos = fatos.split_off(n - MAX_FATOS_POR_CENA);
                assert(textos(fatos@) =~= textos(cheia).skip(n - MAX_FATOS_POR_CENA));
            }
            Some(
                Cena {
                    location_id: c.location_id,
                    nome: c.nome,
                    descricao: c.descricao,
                    fatos_estabelecidos: fatos,
                },
            )
        },
    }
}

/// O que se grava de uma cena é lido de volta como a mesma cena.
pub proof fn lei_cena_gravada_e_lida(l: LinhaCena, c: CenaView)
    requires
        linha_guarda_cena(l, c),
    ensures
        cena_da_linha(c.location_id, Some(l)) == Ok::<Option<CenaView>, ErroDeDados>(Some(c)),
{
}

/// Uma cena que cabe no limite continua cabendo, o fato novo é o último e nada
/// mais da cena muda.
pub proof fn lei_fatos_limitados(c: CenaView, fato: Seq<char>)
    ensures
        com_fato(c, fato).fatos_estabelecidos.len() <= MAX_FATOS_POR_CENA,
        com_fato(c, fato).fatos_estabelecidos.last() == fato,
        c.fatos_estabelecidos.len() < MAX_FATOS_POR_CENA ==> com_fato(c, fato).fatos_estabelecidos
            == c.fatos_estabelecidos.push(fato),
        c.fatos_estabelecidos.len() >= MAX_FATOS_POR_CENA ==> com_fato(
            c,
            fato,
        ).fatos_estabelecidos.drop_last() == ultimos(
            c.fatos_estabelecidos,
            MAX_FATOS_POR_CENA - 1,
        ),
        com_fato(c, fato).location_id == c.location_id,
        com_fato(c, fato).nome == c.nome,
        com_fato(c, fato).descricao == c.descricao,
{
    let cheia = c.fatos_estabelecidos.push(fato);
    if c.fatos_estabelecidos.len() >= MAX_FATOS_POR_CENA {
        assert(ultimos(cheia, MAX_FATOS_POR_CENA as int).drop_last() =~= ultimos(
            c.fatos_estabelecidos,
            MAX_FATOS_POR_CENA - 1,
        ));
    }
}

// ---------------------------------------------------------------------------
// Jogadores e histórico
// ---------------------------------------------------------------------------

/// O jogador e se ele precisa ser gravado: quem já existe volta como está; um
/// `id` desconhecido ganha a ficha inicial.
pub fn get_ou_criar_player(achado: Option<Player>, id: &str) -> (r: (Player, bool))
    ensures
        match achado {
            Some(p) => r == (p, false),
            None => r.0@ == PlayerView::inicial(id@) && r.1,
        },
{
    match achado {
        Some(p) => (p, false),
        None => (Player::seed(id), true),
    }
}

/// O histórico do mais antigo para o mais novo, a partir das linhas lidas do
/// mais novo para o mais antigo.
pub fn historico_do_jogador(recentes: Vec<Event>) -> (r: Vec<Event>)
    ensures
        r@ == recentes@.reverse(),
{
    let mut resto = recentes;
    let mut r: Vec<Event> = Vec::new();
    let ghost todos = recentes@;
    while resto.len() > 0
        invariant
            resto@.len() <= todos.len(),
            resto@ == todos.take(resto@.len() as int),
            r@ == todos.skip(resto@.len() as int).reverse(),
        decreases resto@.len(),
    {
        let ghost n = resto@.len() as int;
        match resto.pop() {
            Some(e) => {
                r.push(e);
                proof {
                    assert(r@ =~= todos.skip(n - 1).reverse());
                    assert(resto@ =~= todos.take(n - 1));
                }
            },
            None => {},
        }
    }
    assert(todos.skip(0) =~= todos);
    r
}

// ---------------------------------------------------------------------------
// Povoamento e migração
// ---------------------------------------------------------------------------

/// A tabela antiga de memórias deve ser refeita: existe e não distingue
/// jogadores.
pub fn migrar_npc_memoria(existe: bool, colunas: &[String]) -> (apagar: bool)
    ensures
        apagar == (existe && !textos(colunas@).contains("player_id"@)),
{
    existe && !contem(colunas, "player_id")
}

impl NpcView {
    /// O combatente de exemplo.
    pub open spec fn lobo() -> NpcView {
        NpcView {
            status: NpcStatus::Hostil,
            hp: Some(Hp { atual: 12, maximo: 12 }),
            classe_armadura: Some(12),
            dano_dado_faces: Some(4),
            xp_recompensa: Some(50),
            loot: seq!["presa_de_lobo"@],
            ..NpcView::figurante(
                "npc_lobo_floresta"@,
                "Lobo Selvagem"@,
                "hostil"@,
                "floresta_negra"@,
                false,
                Seq::empty(),
            )
        }
    }
}

/// Os NPCs de um mundo novo.
pub open spec fn npcs_iniciais() -> Seq<NpcView> {
    seq![
        NpcView::figurante(
            "npc_taverneiro_bram"@,
            "Bram"@,
            "neutro"@,
            "taverna_porto_velho"@,
            true,
            Seq::empty(),
        ),
        NpcView::figurante(
            "npc_cliente_gerta"@,
            "Gerta"@,
            "neutro"@,
            "taverna_porto_velho"@,
            false,
            Seq::empty(),
        ),
        NpcView::figurante(
            "npc_guarda_holt"@,
            "Holt"@,
            "desconfiado"@,
            "floresta_negra"@,
            true,
            Seq::empty(),
        ),
        NpcView::lobo(),
    ]
}

/// O combatente de exemplo.
pub fn npc_lobo_seed() -> (n: Npc)
    ensures
        n@ == NpcView::lobo(),
{
    let mut loot: Vec<String> = Vec::new();
    loot.push("presa_de_lobo".to_string());
    let base = Npc::figurante(
        "npc_lobo_floresta".to_string(),
        "Lobo Selvagem".to_string(),
        "hostil".to_string(),
        "floresta_negra".to_string(),
        false,
        String::new(),
    );
    let n = Npc {
        status: NpcStatus::Hostil,
        hp: Some(Hp { atual: 12, maximo: 12 }),
        classe_armadura: Some(12),
        dano_dado_faces: Some(4),
        xp_recompensa: Some(50),
        loot,
        ..base
    };
    assert(n@.loot =~= seq!["presa_de_lobo"@]);
    n
}

fn morador(id: &str, nome: &str, atitude: &str, location_id: &str, autonomo: bool) -> (n: Npc)
    ensures
        n@ == NpcView::figurante(id@, nome@, atitude@, location_id@, autonomo, Seq::empty()),
{
    Npc::figurante(
        id.to_string(),
        nome.to_string(),
        atitude.to_string(),
        location_id.to_string(),
        autonomo,
        String::new(),
    )
}

/// O que gravar num mundo com `quantos` NPCs. Só tabelas vazias são povoadas:
/// sem NPCs entram os iniciais, e com eles o jogador inicial se ainda não há
/// jogador gravado. Um mundo já povoado recebe só o combatente de exemplo, e só
/// se não o tem. Nada que existe é sobrescrito.
pub fn seed_se_vazio(quantos: i64, tem_lobo: bool, tem_jogador: bool) -> (r: (
    Option<Player>,
    Vec<Npc>,
))
    ensures
        quantos > 0 ==> r.0 is None,
        tem_jogador ==> r.0 is None,
        quantos > 0 && tem_lobo ==> r.1@.len() == 0,
        quantos > 0 && !tem_lobo ==> fichas(r.1@) == seq![NpcView::lobo()],
        quantos <= 0 && !tem_jogador ==> r.0 is Some && r.0->0@ == PlayerView::inicial(
            "player_01"@,
        ),
        quantos <= 0 ==> fichas(r.1@) == npcs_iniciais(),
{
    let mut npcs: Vec<Npc> = Vec::new();
    if quantos > 0 {
        if !tem_lobo {
            npcs.push(npc_lobo_seed());
            assert(fichas(npcs@) =~= seq![NpcView::lobo()]);
        }
        return (None, npcs);
    }
    npcs.push(morador("npc_taverneiro_bram", "Bram", "neutro", "taverna_porto_velho", true));
    npcs.push(morador("npc_cliente_gerta", "Gerta", "neutro", "taverna_porto_velho", false));
    npcs.push(morador("npc_guarda_holt", "Holt", "desconfiado", "floresta_negra", true));
    npcs.push(npc_lobo_seed());
    assert(fichas(npcs@) =~= npcs_iniciais());
    if tem_jogador {
        (None, npcs)
    } else {
        (Some(Player::seed("player_01")), npcs)
    }
}

/// O mundo inicial tem o combatente de exemplo e nenhum `id` repetido, de modo
/// que povoar de novo não grava nada.
pub proof fn lei_povoamento()
    ensures
        npcs_iniciais().contains(NpcView::lobo()),
        forall|i: int, j: int|
            0 <= i < j < npcs_iniciais().len() ==> (#[trigger] npcs_iniciais()[i]).id != (
            #[trigger] npcs_iniciais()[j]).id,
{
    reveal_strlit("npc_taverneiro_bram");
    reveal_strlit("npc_cliente_gerta");
    reveal_strlit("npc_guarda_holt");
    reveal_strlit("npc_lobo_floresta");
    assert(npcs_iniciais()[3] == NpcView::lobo());
    assert("npc_taverneiro_bram"@[4] == 't');
    assert("npc_cliente_gerta"@[4] == 'c');
    assert("npc_guarda_holt"@[4] == 'g');
    assert("npc_lobo_floresta"@[4] == 'l');
}

// ---------------------------------------------------------------------------
// Leis da memória, da cena e do mundo novo
// ---------------------------------------------------------------------------

/// Uma troca entra no fim da janela, que guarda no máximo as três últimas; o que
/// não cabe vai para o fim da espera, na ordem; o contador sobe um, e o resumo e o
/// estado emocional não mudam.
pub proof fn lei_troca_na_memoria(m: MemoriaView, prompt: Seq<char>, resposta: Seq<char>)
    requires
        m.turnos_desde_consolidacao < u32::MAX,
    ensures
        ({
            let t = com_troca(m, prompt, resposta);
            let n = m.ctx.len();
            &&& t.turnos_desde_consolidacao == m.turnos_desde_consolidacao + 1
            &&& t.resumo == m.resumo
            &&& t.estado_emocional == m.estado_emocional
            &&& n < 3 ==> t.ctx == m.ctx.push((prompt, resposta)) && t.saidas == m.saidas
            &&& n >= 3 ==> t.ctx == seq![m.ctx[n - 2], m.ctx[n - 1], (prompt, resposta)]
                && t.saidas == m.saidas + m.ctx.take(n - 2)
        }),
{
    let t = com_troca(m, prompt, resposta);
    let n = m.ctx.len();
    let cheia = m.ctx.push((prompt, resposta));
    if n >= 3 {
        assert(t.ctx =~= seq![m.ctx[n - 2], m.ctx[n - 1], (prompt, resposta)]);
        assert(cheia.take(n - 2) =~= m.ctx.take(n - 2));
    } else {
        assert(t.saidas =~= m.saidas);
    }
}

/// Quem não tem linha tem a memória vazia; uma linha com trocas ilegíveis é um
/// erro; e uma legível dá as suas trocas, o seu resumo, o estado lido e o contador
/// em 32 bits.
pub proof fn lei_memoria_lida(linha: Option<LinhaMemoria>, estado: EstadoEmocionalView)
    ensures
        ({
            let r = memoria_da_linha(linha, estado);
            match linha {
                None => r matches Ok(m) && m.ctx.len() == 0 && m.saidas.len() == 0
                    && m.resumo.len() == 0 && m.turnos_desde_consolidacao == 0
                    && m.estado_emocional == EstadoEmocionalView::neutro(),
                Some(l) => {
                    &&& r is Err <==> trocas_do_json(l.ctx@) is None || trocas_do_json(
                        l.saidas@,
                    ) is None
                    &&& r matches Ok(m) ==> {
                        &&& trocas_do_json(l.ctx@) == Some(m.ctx)
                        &&& trocas_do_json(l.saidas@) == Some(m.saidas)
                        &&& m.resumo == l.resumo@
                        &&& m.estado_emocional == estado
                        &&& (l.turnos_desde_consolidacao - m.turnos_desde_consolidacao)
                            % 0x1_0000_0000 == 0
                    }
                },
            }
        }),
{
}

/// O estado neutro tem todos os eixos em zero e nenhum texto.
pub proof fn lei_estado_neutro()
    ensures
        ({
            let e = EstadoEmocionalView::neutro();
            &&& e.prazer.bits == 0 && e.ativacao.bits == 0 && e.dominancia.bits == 0
            &&& e.confianca.bits == 0 && e.respeito.bits == 0 && e.afinidade.bits == 0
            &&& e.tags.len() == 0 && e.lente_perceptiva.len() == 0 && e.motivacao_imediata.len()
                == 0
        }),
{
}

/// Um fato entra no fim da cena, que guarda no máximo os vinte últimos, na ordem;
/// nada mais da cena muda.
pub proof fn lei_fato_na_cena(c: CenaView, fato: Seq<char>)
    ensures
        ({
            let r = com_fato(c, fato);
            let n = c.fatos_estabelecidos.len();
            &&& r == (CenaView { fatos_estabelecidos: r.fatos_estabelecidos, ..c })
            &&& n < 20 ==> r.fatos_estabelecidos == c.fatos_estabelecidos.push(fato)
            &&& n >= 20 ==> {
                &&& r.fatos_estabelecidos.len() == 20
                &&& r.fatos_estabelecidos[19] == fato
                &&& forall|i: int|
                    0 <= i < 19 ==> #[trigger] r.fatos_estabelecidos[i]
                        == c.fatos_estabelecidos[n - 19 + i]
            }
        }),
{
}

/// A cena lida de uma linha é a do local pedido, com o nome, a descrição e os
/// fatos da linha; sem linha não há cena, e fatos ilegíveis são um erro.
pub proof fn lei_cena_lida(location_id: Seq<char>, linha: Option<LinhaCena>)
    ensures
        ({
            let r = cena_da_linha(location_id, linha);
            match linha {
                None => r == Ok::<Option<CenaView>, ErroDeDados>(None),
                Some(l) => {
                    &&& r is Err <==> textos_do_json(l.fatos@) is None
                    &&& r matches Ok(c) ==> {
                        &&& c is Some
                        &&& c->0.location_id == location_id
                        &&& c->0.nome == l.nome@
                        &&& c->0.descricao == l.descricao@
                        &&& textos_do_json(l.fatos@) == Some(c->0.fatos_estabelecidos)
                    }
                },
            }
        }),
{
}

/// O mundo novo tem dois moradores na taverna e, na floresta, um guarda e um
/// lobo; só o lobo pode lutar, começa com todos os pontos de vida e dá a presa e
/// a experiência a quem o vence. Agem por conta própria o taverneiro e o guarda.
pub proof fn lei_mundo_novo()
    ensures
        npcs_iniciais().len() == 4,
        forall|i: int|
            0 <= i < 4 ==> ((#[trigger] npcs_iniciais()[i]).location_id == (if i < 2 {
                "taverna_porto_velho"@
            } else {
                "floresta_negra"@
            })) && (npcs_iniciais()[i].autonomo <==> i == 0 || i == 2) && (
            crate::combate::combatente(npcs_iniciais()[i]) <==> i == 3),
        npcs_iniciais()[3].hp matches Some(hp) && hp.atual == hp.maximo && hp.atual > 0,
        npcs_iniciais()[3].status == NpcStatus::Hostil,
        npcs_iniciais()[3].xp_recompensa == Some(50u32) && npcs_iniciais()[3].dano_dado_faces == Some(
            4u32,
        ) && npcs_iniciais()[3].classe_armadura == Some(12u32),
        npcs_iniciais()[3].loot == seq!["presa_de_lobo"@],
{
}

} // verus!
