//! Estado Rígido: a única fonte de verdade do mundo.

use crate::tabela::Tabela;
use crate::texto::textos;
use crate::valor::Valor;
use vstd::prelude::*;

verus! {

/// Pontos de vida.
#[derive(Debug, Clone, Copy, PartialEq, Eq, Structural)]
pub struct Hp {
    pub atual: i32,
    pub maximo: i32,
}

/// Um item do inventário, com quantas unidades dele há.
#[derive(Debug, Clone)]
pub struct ItemInventario {
    pub nome: String,
    pub quantidade: u32,
    pub categoria: String,
}

/// A ficha do jogador.
#[derive(Debug, Clone)]
pub struct Player {
    pub id: String,
    pub hp: Hp,
    pub atributos: Tabela<i32>,
    pub inventario: Vec<ItemInventario>,
    pub location_id: String,
    pub nivel: u32,
    pub classe: String,
    pub xp: u32,
    pub nome_personagem: Option<String>,
    pub moedas: u32,
}

/// A situação de um NPC.
#[derive(Debug, Clone, Copy, PartialEq, Eq, Structural)]
pub enum NpcStatus {
    Vivo,
    Morto,
    Hostil,
    Aliado,
}

/// A ficha de um NPC. Só quem tem `hp` e `classe_armadura` pode entrar em
/// combate.
#[derive(Debug, Clone)]
pub struct Npc {
    pub id: String,
    pub nome: String,
    pub status: NpcStatus,
    pub atitude_com_jogador: String,
    pub location_id: String,
    pub autonomo: bool,
    pub hp: Option<Hp>,
    pub classe_armadura: Option<u32>,
    pub dano_dado_faces: Option<u32>,
    pub xp_recompensa: Option<u32>,
    pub loot: Vec<String>,
    pub descricao: String,
    pub deslocamento: Option<u32>,
    pub imunidades: Vec<String>,
    pub resistencias: Vec<String>,
    pub moedas: Option<u32>,
    pub precos: Tabela<u32>,
    pub interesses: Vec<String>,
    pub temperamento_base: EstadoEmocional,
}

/// As marcas da campanha e o turno em que ela está.
#[derive(Debug, Clone)]
pub struct WorldFlags {
    pub flags: Tabela<Valor>,
    pub turno_atual: u64,
}

/// Cena: o fato objetivo de um `location_id`, criado e enriquecido só pelo
/// Mestre de Jogo.
#[derive(Debug, Clone)]
pub struct Cena {
    pub location_id: String,
    pub nome: String,
    pub descricao: String,
    pub fatos_estabelecidos: Vec<String>,
}

/// Um combate entre um jogador e um NPC.
#[derive(Debug, Clone)]
pub struct Combate {
    pub player_id: String,
    pub npc_id: String,
    pub rodada: u32,
    pub ativo: bool,
}

/// Um eixo emocional: um número de precisão simples (IEEE 754) pelos seus
/// bits. O bit mais alto é o sinal e os outros crescem com o módulo, de modo
/// que comparar e limitar módulos é comparar e limitar esses bits.
#[derive(Debug, Clone, Copy, PartialEq, Eq, Structural)]
pub struct Eixo {
    pub bits: u32,
}

/// Os bits do módulo um.
pub const MODULO_UM: u32 = 0x3f80_0000;

/// Os bits do módulo um décimo.
pub const MODULO_UM_DECIMO: u32 = 0x3dcc_cccd;

/// Os bits do módulo infinito; acima dele os bits não são número.
pub const MODULO_INFINITO: u32 = 0x7f80_0000;

/// O bit de sinal.
pub const BIT_DE_SINAL: u32 = 0x8000_0000;

impl Eixo {
    pub open spec fn negativo(self) -> bool {
        self.bits >= BIT_DE_SINAL
    }

    /// Os bits do módulo.
    pub open spec fn modulo(self) -> int {
        if self.negativo() {
            self.bits - BIT_DE_SINAL
        } else {
            self.bits as int
        }
    }

    /// Os bits não são número (NaN).
    pub open spec fn nao_numero(self) -> bool {
        self.modulo() > MODULO_INFINITO
    }

    /// A ordem dos números, sobre inteiros: dois eixos que são números se
    /// comparam como as suas ordens (e menos zero é igual a zero).
    pub open spec fn ordem(self) -> int {
        if self.negativo() {
            -self.modulo()
        } else {
            self.modulo()
        }
    }

    /// O número está entre menos um e um.
    pub open spec fn no_intervalo(self) -> bool {
        -MODULO_UM <= self.ordem() <= MODULO_UM
    }

    /// O eixo limitado a `[-1, 1]`; o que não é número fica como está.
    pub open spec fn limitado(self) -> Eixo {
        if self.nao_numero() || self.modulo() <= MODULO_UM {
            self
        } else if self.negativo() {
            Eixo { bits: (BIT_DE_SINAL + MODULO_UM) as u32 }
        } else {
            Eixo { bits: MODULO_UM }
        }
    }

    /// O módulo passa de um décimo.
    pub open spec fn relevante(self) -> bool {
        MODULO_UM_DECIMO < self.modulo() && !self.nao_numero()
    }

    fn modulo_em_bits(&self) -> (m: u32)
        ensures
            m == self.modulo(),
    {
        if self.bits >= BIT_DE_SINAL {
            self.bits - BIT_DE_SINAL
        } else {
            self.bits
        }
    }

    /// Se os bits não são número.
    pub fn eh_nao_numero(&self) -> (r: bool)
        ensures
            r == self.nao_numero(),
    {
        self.modulo_em_bits() > MODULO_INFINITO
    }

    /// A ordem do eixo entre os números.
    pub fn ordem_inteira(&self) -> (o: i64)
        ensures
            o == self.ordem(),
    {
        if self.bits >= BIT_DE_SINAL {
            -((self.bits - BIT_DE_SINAL) as i64)
        } else {
            self.bits as i64
        }
    }

    /// Limita o eixo a `[-1, 1]`.
    pub fn limitar(&self) -> (e: Eixo)
        ensures
            e == self.limitado(),
    {
        let m: u32 = self.modulo_em_bits();
        if m > MODULO_INFINITO || m <= MODULO_UM {
            Eixo { bits: self.bits }
        } else if self.bits >= BIT_DE_SINAL {
            Eixo { bits: BIT_DE_SINAL + MODULO_UM }
        } else {
            Eixo { bits: MODULO_UM }
        }
    }

    /// Se o módulo passa de um décimo.
    pub fn eh_relevante(&self) -> (r: bool)
        ensures
            r == self.relevante(),
    {
        let m: u32 = self.modulo_em_bits();
        m > MODULO_UM_DECIMO && m <= MODULO_INFINITO
    }

    /// O eixo em zero.
    pub fn zero() -> (e: Eixo)
        ensures
            e == (Eixo { bits: 0 }),
    {
        Eixo { bits: 0 }
    }
}

/// Um eixo limitado que é número está em `[-1, 1]`, e limitar de novo não muda
/// nada.
pub proof fn lei_limitado(e: Eixo)
    ensures
        !e.nao_numero() ==> e.limitado().no_intervalo(),
        e.nao_numero() ==> e.limitado() == e,
        e.no_intervalo() ==> e.limitado() == e,
        e.limitado().limitado() == e.limitado(),
{
}

/// Estado emocional de um NPC em relação a um jogador: o estado afetivo do
/// momento (prazer, ativação, dominância), a relação (confiança, respeito,
/// afinidade, rótulos) e a leitura que o NPC faz do turno. Os eixos são
/// limitados a `[-1, 1]`; os textos são livres, só contexto.
#[derive(Debug, Clone)]
pub struct EstadoEmocional {
    pub prazer: Eixo,
    pub ativacao: Eixo,
    pub dominancia: Eixo,
    pub confianca: Eixo,
    pub respeito: Eixo,
    pub afinidade: Eixo,
    pub tags: Vec<String>,
    pub lente_perceptiva: String,
    pub motivacao_imediata: String,
}

/// Memória de um NPC em relação a um jogador: as últimas trocas (o que o
/// jogador escreveu, o que o NPC respondeu), as que saíram dessa janela desde a
/// última consolidação, o resumo do que veio antes, o estado emocional, e há
/// quantos turnos a memória não é consolidada.
#[derive(Debug, Clone)]
pub struct MemoriaNpc {
    pub ctx: Vec<(String, String)>,
    pub saidas: Vec<(String, String)>,
    pub resumo: String,
    pub estado_emocional: EstadoEmocional,
    pub turnos_desde_consolidacao: u32,
}

// ---------------------------------------------------------------------------
// Modelos
// ---------------------------------------------------------------------------

/// O que um [`ItemInventario`] diz.
pub struct ItemView {
    pub nome: Seq<char>,
    pub quantidade: u32,
    pub categoria: Seq<char>,
}

/// O que um [`Player`] diz.
pub struct PlayerView {
    pub id: Seq<char>,
    pub hp: Hp,
    pub atributos: Map<Seq<char>, i32>,
    pub inventario: Seq<ItemView>,
    pub location_id: Seq<char>,
    pub nivel: u32,
    pub classe: Seq<char>,
    pub xp: u32,
    pub nome_personagem: Option<Seq<char>>,
    pub moedas: u32,
}

/// O que um [`EstadoEmocional`] diz.
pub struct EstadoEmocionalView {
    pub prazer: Eixo,
    pub ativacao: Eixo,
    pub dominancia: Eixo,
    pub confianca: Eixo,
    pub respeito: Eixo,
    pub afinidade: Eixo,
    pub tags: Seq<Seq<char>>,
    pub lente_perceptiva: Seq<char>,
    pub motivacao_imediata: Seq<char>,
}

/// O que um [`Npc`] diz.
pub struct NpcView {
    pub id: Seq<char>,
    pub nome: Seq<char>,
    pub status: NpcStatus,
    pub atitude_com_jogador: Seq<char>,
    pub location_id: Seq<char>,
    pub autonomo: bool,
    pub hp: Option<Hp>,
    pub classe_armadura: Option<u32>,
    pub dano_dado_faces: Option<u32>,
    pub xp_recompensa: Option<u32>,
    pub loot: Seq<Seq<char>>,
    pub descricao: Seq<char>,
    pub deslocamento: Option<u32>,
    pub imunidades: Seq<Seq<char>>,
    pub resistencias: Seq<Seq<char>>,
    pub moedas: Option<u32>,
    pub precos: Seq<(Seq<char>, u32)>,
    pub interesses: Seq<Seq<char>>,
    pub temperamento_base: EstadoEmocionalView,
}

/// O que uma [`Cena`] diz.
pub struct CenaView {
    pub location_id: Seq<char>,
    pub nome: Seq<char>,
    pub descricao: Seq<char>,
    pub fatos_estabelecidos: Seq<Seq<char>>,
}

/// O que um [`Combate`] diz.
pub struct CombateView {
    pub player_id: Seq<char>,
    pub npc_id: Seq<char>,
    pub rodada: u32,
    pub ativo: bool,
}

/// O que uma [`MemoriaNpc`] diz.
pub struct MemoriaView {
    pub ctx: Seq<(Seq<char>, Seq<char>)>,
    pub saidas: Seq<(Seq<char>, Seq<char>)>,
    pub resumo: Seq<char>,
    pub estado_emocional: EstadoEmocionalView,
    pub turnos_desde_consolidacao: u32,
}

impl View for ItemInventario {
    type V = ItemView;

    open spec fn view(&self) -> ItemView {
        ItemView { nome: self.nome@, quantidade: self.quantidade, categoria: self.categoria@ }
    }
}

/// O que um inventário diz.
pub open spec fn itens(inventario: Seq<ItemInventario>) -> Seq<ItemView> {
    inventario.map_values(|i: ItemInventario| i@)
}

/// Os caracteres de um texto opcional.
pub open spec fn texto_opcional(t: Option<String>) -> Option<Seq<char>> {
    match t {
        Some(s) => Some(s@),
        None => None,
    }
}

/// O que uma lista de pares de textos diz.
pub open spec fn trocas(ctx: Seq<(String, String)>) -> Seq<(Seq<char>, Seq<char>)> {
    ctx.map_values(|t: (String, String)| (t.0@, t.1@))
}

impl View for Player {
    type V = PlayerView;

    open spec fn view(&self) -> PlayerView {
        PlayerView {
            id: self.id@,
            hp: self.hp,
            atributos: self.atributos@,
            inventario: itens(self.inventario@),
            location_id: self.location_id@,
            nivel: self.nivel,
            classe: self.classe@,
            xp: self.xp,
            nome_personagem: texto_opcional(self.nome_personagem),
            moedas: self.moedas,
        }
    }
}

impl View for EstadoEmocional {
    type V = EstadoEmocionalView;

    open spec fn view(&self) -> EstadoEmocionalView {
        EstadoEmocionalView {
            prazer: self.prazer,
            ativacao: self.ativacao,
            dominancia: self.dominancia,
            confianca: self.confianca,
            respeito: self.respeito,
            afinidade: self.afinidade,
            tags: textos(self.tags@),
            lente_perceptiva: self.lente_perceptiva@,
            motivacao_imediata: self.motivacao_imediata@,
        }
    }
}

impl View for Npc {
    type V = NpcView;

    open spec fn view(&self) -> NpcView {
        NpcView {
            id: self.id@,
            nome: self.nome@,
            status: self.status,
            atitude_com_jogador: self.atitude_com_jogador@,
            location_id: self.location_id@,
            autonomo: self.autonomo,
            hp: self.hp,
            classe_armadura: self.classe_armadura,
            dano_dado_faces: self.dano_dado_faces,
            xp_recompensa: self.xp_recompensa,
            loot: textos(self.loot@),
            descricao: self.descricao@,
            deslocamento: self.deslocamento,
            imunidades: textos(self.imunidades@),
            resistencias: textos(self.resistencias@),
            moedas: self.moedas,
            precos: self.precos.pares(),
            interesses: textos(self.interesses@),
            temperamento_base: self.temperamento_base@,
        }
    }
}

impl View for Cena {
    type V = CenaView;

    open spec fn view(&self) -> CenaView {
        CenaView {
            location_id: self.location_id@,
            nome: self.nome@,
            descricao: self.descricao@,
            fatos_estabelecidos: textos(self.fatos_estabelecidos@),
        }
    }
}

impl View for Combate {
    type V = CombateView;

    open spec fn view(&self) -> CombateView {
        CombateView {
            player_id: self.player_id@,
            npc_id: self.npc_id@,
            rodada: self.rodada,
            ativo: self.ativo,
        }
    }
}

impl View for MemoriaNpc {
    type V = MemoriaView;

    open spec fn view(&self) -> MemoriaView {
        MemoriaView {
            ctx: trocas(self.ctx@),
            saidas: trocas(self.saidas@),
            resumo: self.resumo@,
            estado_emocional: self.estado_emocional@,
            turnos_desde_consolidacao: self.turnos_desde_consolidacao,
        }
    }
}

/// O que uma lista de NPCs diz.
pub open spec fn fichas(npcs: Seq<Npc>) -> Seq<NpcView> {
    npcs.map_values(|n: Npc| n@)
}

/// O que uma lista de referências a NPCs diz.
pub open spec fn fichas_ref(npcs: Seq<&Npc>) -> Seq<NpcView> {
    npcs.map_values(|n: &Npc| n@)
}

// ---------------------------------------------------------------------------
// Estados iniciais
// ---------------------------------------------------------------------------

impl EstadoEmocionalView {
    /// O estado sem emoção nem histórico.
    pub open spec fn neutro() -> EstadoEmocionalView {
        EstadoEmocionalView {
            prazer: Eixo { bits: 0 },
            ativacao: Eixo { bits: 0 },
            dominancia: Eixo { bits: 0 },
            confianca: Eixo { bits: 0 },
            respeito: Eixo { bits: 0 },
            afinidade: Eixo { bits: 0 },
            tags: Seq::empty(),
            lente_perceptiva: Seq::empty(),
            motivacao_imediata: Seq::empty(),
        }
    }
}

impl MemoriaView {
    /// A memória de quem nunca se encontrou.
    pub open spec fn vazia() -> MemoriaView {
        MemoriaView {
            ctx: Seq::empty(),
            saidas: Seq::empty(),
            resumo: Seq::empty(),
            estado_emocional: EstadoEmocionalView::neutro(),
            turnos_desde_consolidacao: 0,
        }
    }
}

impl PlayerView {
    /// A ficha inicial de um personagem novo.
    pub open spec fn inicial(id: Seq<char>) -> PlayerView {
        PlayerView {
            id,
            hp: Hp { atual: 10, maximo: 10 },
            atributos: Map::empty(),
            inventario: Seq::empty(),
            location_id: "taverna_porto_velho"@,
            nivel: 1,
            classe: "guerreiro"@,
            xp: 0,
            nome_personagem: None,
            moedas: 0,
        }
    }
}

impl Default for EstadoEmocional {
    fn default() -> (e: EstadoEmocional)
        ensures
            e@ == EstadoEmocionalView::neutro(),
    {
        let e = EstadoEmocional {
            prazer: Eixo::zero(),
            ativacao: Eixo::zero(),
            dominancia: Eixo::zero(),
            confianca: Eixo::zero(),
            respeito: Eixo::zero(),
            afinidade: Eixo::zero(),
            tags: Vec::new(),
            lente_perceptiva: String::new(),
            motivacao_imediata: String::new(),
        };
        assert(e@.tags =~= EstadoEmocionalView::neutro().tags);
        e
    }
}

impl Default for MemoriaNpc {
    fn default() -> (m: MemoriaNpc)
        ensures
            m@ == MemoriaView::vazia(),
    {
        let m = MemoriaNpc {
            ctx: Vec::new(),
            saidas: Vec::new(),
            resumo: String::new(),
            estado_emocional: EstadoEmocional::default(),
            turnos_desde_consolidacao: 0,
        };
        assert(m@.ctx =~= MemoriaView::vazia().ctx);
        assert(m@.saidas =~= MemoriaView::vazia().saidas);
        m
    }
}

impl Default for WorldFlags {
    fn default() -> (w: WorldFlags)
        ensures
            w.flags@ == Map::<Seq<char>, crate::valor::ValorView>::empty(),
            w.turno_atual == 0,
    {
        WorldFlags { flags: Tabela::new(), turno_atual: 0 }
    }
}

impl Player {
    /// A ficha inicial de um personagem novo: usada na povoação do mundo e na
    /// criação automática de jogadores desconhecidos.
    pub fn seed(id: &str) -> (p: Player)
        ensures
            p@ == PlayerView::inicial(id@),
    {
        let p = Player {
            id: id.to_string(),
            hp: Hp { atual: 10, maximo: 10 },
            atributos: Tabela::new(),
            inventario: Vec::new(),
            location_id: "taverna_porto_velho".to_string(),
            nivel: 1,
            classe: "guerreiro".to_string(),
            xp: 0,
            nome_personagem: None,
            moedas: 0,
        };
        assert(p@.inventario =~= PlayerView::inicial(id@).inventario);
        p
    }
}

impl NpcView {
    /// Um NPC que não combate nem vende, ainda sem história.
    pub open spec fn figurante(
        id: Seq<char>,
        nome: Seq<char>,
        atitude_com_jogador: Seq<char>,
        location_id: Seq<char>,
        autonomo: bool,
        descricao: Seq<char>,
    ) -> NpcView {
        NpcView {
            id,
            nome,
            status: NpcStatus::Vivo,
            atitude_com_jogador,
            location_id,
            autonomo,
            hp: None,
            classe_armadura: None,
            dano_dado_faces: None,
            xp_recompensa: None,
            loot: Seq::empty(),
            descricao,
            deslocamento: None,
            imunidades: Seq::empty(),
            resistencias: Seq::empty(),
            moedas: None,
            precos: Seq::empty(),
            interesses: Seq::empty(),
            temperamento_base: EstadoEmocionalView::neutro(),
        }
    }
}

impl Npc {
    /// Um NPC que não combate nem vende, ainda sem história.
    pub fn figurante(
        id: String,
        nome: String,
        atitude_com_jogador: String,
        location_id: String,
        autonomo: bool,
        descricao: String,
    ) -> (n: Npc)
        ensures
            n@ == NpcView::figurante(
                id@,
                nome@,
                atitude_com_jogador@,
                location_id@,
                autonomo,
                descricao@,
            ),
    {
        assert(textos(Seq::<String>::empty()) =~= Seq::<Seq<char>>::empty());
        Npc {
            id,
            nome,
            status: NpcStatus::Vivo,
            atitude_com_jogador,
            location_id,
            autonomo,
            hp: None,
            classe_armadura: None,
            dano_dado_faces: None,
            xp_recompensa: None,
            loot: Vec::new(),
            descricao,
            deslocamento: None,
            imunidades: Vec::new(),
            resistencias: Vec::new(),
            moedas: None,
            precos: Tabela::new(),
            interesses: Vec::new(),
            temperamento_base: EstadoEmocional::default(),
        }
    }
}

// ---------------------------------------------------------------------------
// Leis dos eixos
// ---------------------------------------------------------------------------

/// Limitar um número acima de um dá um, abaixo de menos um dá menos um, e entre
/// eles não muda nada; o que não é número fica como está.
pub proof fn lei_limites_do_eixo(m: u32)
    requires
        m < 0x8000_0000,
    ensures
        ({
            let mais = Eixo { bits: m };
            let menos = Eixo { bits: (0x8000_0000 + m) as u32 };
            &&& m <= 0x3f80_0000 ==> mais.limitado() == mais && menos.limitado() == menos
            &&& 0x3f80_0000 < m <= 0x7f80_0000 ==> mais.limitado() == (Eixo { bits: 0x3f80_0000 })
                && menos.limitado() == (Eixo { bits: 0xbf80_0000 })
            &&& m > 0x7f80_0000 ==> mais.limitado() == mais && menos.limitado() == menos
        }),
{
}

/// Um eixo pesa quando o seu módulo passa de um décimo, seja qual for o sinal.
pub proof fn lei_eixo_relevante(m: u32)
    requires
        m < 0x8000_0000,
    ensures
        (Eixo { bits: m }).relevante() <==> 0x3dcc_cccd < m <= 0x7f80_0000,
        (Eixo { bits: (0x8000_0000 + m) as u32 }).relevante() <==> (Eixo { bits: m }).relevante(),
{
}

/// Trocar o sinal inverte a ordem, e entre os que não têm sinal a ordem é a dos
/// bits: menos zero vale zero, e todo negativo vem antes.
pub proof fn lei_ordem_do_eixo(a: u32, b: u32)
    requires
        a < 0x8000_0000,
        b < 0x8000_0000,
    ensures
        ({
            let (p, q) = (Eixo { bits: a }, Eixo { bits: b });
            let menos_p = Eixo { bits: (a + 0x8000_0000) as u32 };
            let menos_q = Eixo { bits: (b + 0x8000_0000) as u32 };
            &&& p.ordem() < q.ordem() <==> a < b
            &&& menos_p.ordem() < menos_q.ordem() <==> b < a
            &&& menos_p.ordem() < q.ordem() <==> a > 0 || b > 0
            &&& menos_p.ordem() + p.ordem() == 0
            &&& menos_p.modulo() == p.modulo()
            &&& menos_p.nao_numero() == p.nao_numero()
        }),
{
}

/// Quem nunca se encontrou não lembra de nada, e não há o que consolidar.
pub proof fn lei_memoria_vazia()
    ensures
        ({
            let m = MemoriaView::vazia();
            &&& m.ctx.len() == 0 && m.saidas.len() == 0 && m.resumo.len() == 0
            &&& m.turnos_desde_consolidacao == 0
            &&& m.estado_emocional.prazer.ordem() == 0 && m.estado_emocional.ativacao.ordem() == 0
            &&& m.estado_emocional.dominancia.ordem() == 0 && m.estado_emocional.confianca.ordem()
                == 0
            &&& m.estado_emocional.respeito.ordem() == 0 && m.estado_emocional.afinidade.ordem()
                == 0
            &&& m.estado_emocional.tags.len() == 0
        }),
{
}

/// Um personagem novo começa na taverna, no primeiro nível, com dez pontos de
/// vida, e sem experiência, moedas nem itens.
pub proof fn lei_jogador_novo(id: Seq<char>)
    ensures
        ({
            let p = PlayerView::inicial(id);
            &&& p.id == id && p.location_id == "taverna_porto_velho"@ && p.classe == "guerreiro"@
            &&& p.hp.atual == p.hp.maximo == 10
            &&& p.nivel == 1 && p.xp == 0 && p.moedas == 0
            &&& p.inventario.len() == 0 && p.nome_personagem is None
        }),
{
}

/// Um figurante está vivo onde foi posto, não luta, não vende e não guarda nada.
pub proof fn lei_figurante(
    id: Seq<char>,
    nome: Seq<char>,
    atitude: Seq<char>,
    local: Seq<char>,
    autonomo: bool,
    descricao: Seq<char>,
)
    ensures
        ({
            let n = NpcView::figurante(id, nome, atitude, local, autonomo, descricao);
            &&& n.id == id && n.nome == nome && n.atitude_com_jogador == atitude
            &&& n.location_id == local && n.autonomo == autonomo && n.descricao == descricao
            &&& n.status == NpcStatus::Vivo && n.hp is None && n.classe_armadura is None
            &&& n.precos.len() == 0 && n.loot.len() == 0 && n.moedas is None
            &&& n.interesses.len() == 0 && n.imunidades.len() == 0 && n.resistencias.len() == 0
        }),
{
}

} // verus!
