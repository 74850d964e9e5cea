//! Mudança de estado: o modelo de linguagem só sugere, nunca escreve direto.
//! Cada sugestão é validada contra uma lista fechada de campos e operações;
//! fora dela, ou contra uma invariante, é rejeitada e nada muda.

use crate::combate::{fato_mudanca, nao_negativo, tem_item};
use crate::events::{fatos, identificador_valido, identificados, Event, EventType, Fato};
use crate::state::{itens, texto_opcional, ItemInventario, ItemView, Player, PlayerView};
use crate::tabela::Tabela;
use crate::texto::{em_branco, mesmo_texto, so_espaco};
use crate::valor::{vazio, Valor, ValorView};
use vstd::prelude::*;

pub mod economia;

pub use economia::{pedido_de_mudancas, propor_e_validar, propor_mudancas, Decisao};

verus! {

/// Uma mudança sugerida. `categoria` só é usada ao adicionar um item novo.
#[derive(Debug, Clone)]
pub struct MudancaProposta {
    pub campo: String,
    pub operacao: String,
    pub valor: Valor,
    pub categoria: Option<String>,
}

/// O que uma [`MudancaProposta`] diz.
pub struct PropostaView {
    pub campo: Seq<char>,
    pub operacao: Seq<char>,
    pub valor: ValorView,
    pub categoria: Option<Seq<char>>,
}

impl View for MudancaProposta {
    type V = PropostaView;

    open spec fn view(&self) -> PropostaView {
        PropostaView {
            campo: self.campo@,
            operacao: self.operacao@,
            valor: self.valor@,
            categoria: texto_opcional(self.categoria),
        }
    }
}

/// O que uma lista de propostas diz.
pub open spec fn propostas_vistas(ps: Seq<MudancaProposta>) -> Seq<PropostaView> {
    ps.map_values(|p: MudancaProposta| p@)
}

/// A proposta é desta operação sobre este campo.
pub open spec fn trata_de(m: PropostaView, campo: Seq<char>, operacao: Seq<char>) -> bool {
    m.campo == campo && m.operacao == operacao
}

// ---------------------------------------------------------------------------
// Modelo da aplicação
// ---------------------------------------------------------------------------

/// O que sai de uma proposta: a ficha nova e o evento, ou a razão da rejeição.
pub type Aplicacao = Result<(PlayerView, Fato), Seq<char>>;

/// `n` trazido para dentro de `[minimo, maximo]`.
pub open spec fn entre(n: int, minimo: int, maximo: int) -> int {
    if n < minimo {
        minimo
    } else if n > maximo {
        maximo
    } else {
        n
    }
}

/// A posição do primeiro item com esse nome, a partir de `de`.
pub open spec fn posicao_item(inventario: Seq<ItemView>, nome: Seq<char>, de: int) -> Option<int>
    decreases inventario.len() - de,
{
    if de >= inventario.len() {
        None
    } else if inventario[de].nome == nome {
        Some(de)
    } else {
        posicao_item(inventario, nome, de + 1)
    }
}

/// Soma aos pontos de vida, sem sair de zero ao máximo.
pub open spec fn soma_hp(p: PlayerView, turno: u64, valor: ValorView) -> Aplicacao {
    match valor.inteiro() {
        None => Err("valor de player.hp nao e um inteiro"@),
        Some(delta) => {
            let novo = entre(p.hp.atual + delta, 0, p.hp.maximo as int);
            if novo == p.hp.atual {
                Err("player.hp: proposta nao muda o valor atual (no-op), descartando"@)
            } else {
                Ok(
                    (
                        PlayerView { hp: crate::state::Hp { atual: novo as i32, ..p.hp }, ..p },
                        fato_mudanca(
                            turno,
                            vazio().insert("campo"@, ValorView::Texto("player.hp"@)).insert(
                                "operacao"@,
                                ValorView::Texto("somar"@),
                            ).insert("valor"@, ValorView::Inteiro(delta as int)).insert(
                                "anterior"@,
                                ValorView::Inteiro(p.hp.atual as int),
                            ).insert("atual"@, ValorView::Inteiro(novo)),
                        ),
                    ),
                )
            }
        },
    }
}

/// As moedas depois de somar `delta`: nunca negativas, em 32 bits.
pub open spec fn moedas_apos(moedas: u32, delta: i64) -> int {
    nao_negativo(moedas + delta) % 0x1_0000_0000
}

/// Soma às moedas.
pub open spec fn soma_moedas(p: PlayerView, turno: u64, valor: ValorView) -> Aplicacao {
    match valor.inteiro() {
        None => Err("valor de player.moedas nao e um inteiro"@),
        Some(delta) => {
            let novo = moedas_apos(p.moedas, delta);
            if novo == p.moedas {
                Err("player.moedas: proposta nao muda o valor atual (no-op), descartando"@)
            } else {
                Ok(
                    (
                        PlayerView { moedas: novo as u32, ..p },
                        fato_mudanca(
                            turno,
                            vazio().insert("campo"@, ValorView::Texto("player.moedas"@)).insert(
                                "operacao"@,
                                ValorView::Texto("somar"@),
                            ).insert("valor"@, ValorView::Inteiro(delta as int)).insert(
                                "anterior"@,
                                ValorView::Inteiro(p.moedas as int),
                            ).insert("atual"@, ValorView::Inteiro(novo)),
                        ),
                    ),
                )
            }
        },
    }
}

/// O evento de uma mudança no inventário.
pub open spec fn fato_inventario(
    turno: u64,
    operacao: Seq<char>,
    item: Seq<char>,
    quantidade: int,
) -> Fato {
    fato_mudanca(
        turno,
        vazio().insert("campo"@, ValorView::Texto("player.inventario"@)).insert(
            "operacao"@,
            ValorView::Texto(operacao),
        ).insert("valor"@, ValorView::Texto(item)).insert(
            "quantidade"@,
            ValorView::Inteiro(quantidade),
        ),
    )
}

/// O texto opcional, ou nada.
pub open spec fn ou_vazio(t: Option<Seq<char>>) -> Seq<char> {
    match t {
        Some(s) => s,
        None => Seq::empty(),
    }
}

/// O inventário com mais uma unidade de `item`.
pub open spec fn com_item(
    inventario: Seq<ItemView>,
    item: Seq<char>,
    categoria: Option<Seq<char>>,
) -> Seq<ItemView> {
    match posicao_item(inventario, item, 0) {
        Some(i) => inventario.update(
            i,
            ItemView { quantidade: (inventario[i].quantidade + 1) as u32, ..inventario[i] },
        ),
        None => inventario.push(
            ItemView { nome: item, quantidade: 1, categoria: ou_vazio(categoria) },
        ),
    }
}

/// Quantas unidades de `item` há depois de acrescentar uma.
pub open spec fn quantidade_com(inventario: Seq<ItemView>, item: Seq<char>) -> int {
    match posicao_item(inventario, item, 0) {
        Some(i) => inventario[i].quantidade + 1,
        None => 1,
    }
}

/// Acrescenta uma unidade de um item.
pub open spec fn adiciona_item(p: PlayerView, turno: u64, m: PropostaView) -> Aplicacao {
    match m.valor.texto() {
        None => Err("valor de player.inventario nao e uma string"@),
        Some(item) => Ok(
            (
                PlayerView { inventario: com_item(p.inventario, item, m.categoria), ..p },
                fato_inventario(turno, "adicionar"@, item, quantidade_com(p.inventario, item)),
            ),
        ),
    }
}

/// O inventário sem uma unidade do item da posição `i`, e sem o item se era a
/// última.
pub open spec fn sem_unidade(inventario: Seq<ItemView>, i: int) -> Seq<ItemView> {
    if inventario[i].quantidade == 1 {
        inventario.remove(i)
    } else {
        inventario.update(
            i,
            ItemView { quantidade: (inventario[i].quantidade - 1) as u32, ..inventario[i] },
        )
    }
}

/// Retira uma unidade de um item que o jogador tem.
pub open spec fn remove_item(p: PlayerView, turno: u64, m: PropostaView) -> Aplicacao {
    match m.valor.texto() {
        None => Err("valor de player.inventario nao e uma string"@),
        Some(item) => match posicao_item(p.inventario, item, 0) {
            None => Err("item '"@ + item + "' nao esta no inventario, rejeitando remocao"@),
            Some(i) => Ok(
                (
                    PlayerView { inventario: sem_unidade(p.inventario, i), ..p },
                    fato_inventario(turno, "remover"@, item, p.inventario[i].quantidade - 1),
                ),
            ),
        },
    }
}

/// Leva o jogador para outro local.
pub open spec fn define_local(p: PlayerView, turno: u64, m: PropostaView) -> Aplicacao {
    match m.valor.texto() {
        None => Err("valor de player.location_id nao e uma string"@),
        Some(destino) => if em_branco(destino) {
            Err("destino vazio, rejeitando"@)
        } else {
            Ok(
                (
                    PlayerView { location_id: destino, ..p },
                    fato_mudanca(
                        turno,
                        vazio().insert("campo"@, ValorView::Texto("player.location_id"@)).insert(
                            "operacao"@,
                            ValorView::Texto("definir"@),
                        ).insert("valor"@, ValorView::Texto(destino)).insert(
                            "anterior"@,
                            ValorView::Texto(p.location_id),
                        ),
                    ),
                ),
            )
        },
    }
}

/// O que uma proposta faz com a ficha: só os pares de campo e operação da
/// lista fechada fazem alguma coisa.
pub open spec fn aplicacao(p: PlayerView, turno: u64, m: PropostaView) -> Aplicacao {
    if trata_de(m, "player.hp"@, "somar"@) {
        soma_hp(p, turno, m.valor)
    } else if trata_de(m, "player.moedas"@, "somar"@) {
        soma_moedas(p, turno, m.valor)
    } else if trata_de(m, "player.inventario"@, "adicionar"@) {
        adiciona_item(p, turno, m)
    } else if trata_de(m, "player.inventario"@, "remover"@) {
        remove_item(p, turno, m)
    } else if trata_de(m, "player.location_id"@, "definir"@) {
        define_local(p, turno, m)
    } else {
        Err("campo/operacao fora da whitelist: "@ + m.campo + " / "@ + m.operacao)
    }
}

/// A conta que a proposta pede cabe nos números: as somas não estouram, o
/// máximo de pontos de vida não é negativo, e o item a retirar tem unidades.
pub open spec fn proposta_definida(p: PlayerView, m: PropostaView) -> bool {
    if trata_de(m, "player.hp"@, "somar"@) {
        m.valor.inteiro() matches Some(delta) ==> {
            &&& p.hp.maximo >= 0
            &&& i64::MIN <= p.hp.atual + delta <= i64::MAX
        }
    } else if trata_de(m, "player.moedas"@, "somar"@) {
        m.valor.inteiro() matches Some(delta) ==> p.moedas + delta <= i64::MAX
    } else if trata_de(m, "player.inventario"@, "adicionar"@) {
        m.valor.texto() matches Some(item) ==> (posicao_item(p.inventario, item, 0) matches Some(i)
            ==> p.inventario[i].quantidade < u32::MAX)
    } else if trata_de(m, "player.inventario"@, "remover"@) {
        m.valor.texto() matches Some(item) ==> (posicao_item(p.inventario, item, 0) matches Some(i)
            ==> p.inventario[i].quantidade > 0)
    } else {
        true
    }
}

// ---------------------------------------------------------------------------
// Execução
// ---------------------------------------------------------------------------

proof fn lema_posicao_item(inventario: Seq<ItemView>, nome: Seq<char>, de: int)
    requires
        0 <= de,
    ensures
        match posicao_item(inventario, nome, de) {
            Some(i) => de <= i < inventario.len() && inventario[i].nome == nome && forall|j: int|
                de <= j < i ==> (#[trigger] inventario[j]).nome != nome,
            None => forall|j: int|
                de <= j < inventario.len() ==> (#[trigger] inventario[j]).nome != nome,
        },
    decreases inventario.len() - de,
{
    if de < inventario.len() && inventario[de].nome != nome {
        lema_posicao_item(inventario, nome, de + 1);
    }
}

fn posicao_no_inventario(inventario: &Vec<ItemInventario>, nome: &str) -> (p: Option<usize>)
    ensures
        match p {
            Some(i) => posicao_item(itens(inventario@), nome@, 0) == Some(i as int) && i
                < inventario@.len(),
            None => posicao_item(itens(inventario@), nome@, 0) is None,
        },
{
    let ghost vs = itens(inventario@);
    let mut i: usize = 0;
    while i < inventario.len()
        invariant
            i <= inventario@.len(),
            vs == itens(inventario@),
            posicao_item(vs, nome@, 0) == posicao_item(vs, nome@, i as int),
        decreases inventario@.len() - i,
    {
        if mesmo_texto(inventario[i].nome.as_str(), nome) {
            return Some(i);
        }
        i += 1;
    }
    None
}

fn da_whitelist(proposta: &MudancaProposta, campo: &str, operacao: &str) -> (r: bool)
    ensures
        r == trata_de(proposta@, campo@, operacao@),
{
    mesmo_texto(proposta.campo.as_str(), campo) && mesmo_texto(
        proposta.operacao.as_str(),
        operacao,
    )
}

/// Se a conta que a proposta pede cabe nos números da ficha.
pub fn proposta_cabe(player: &Player, proposta: &MudancaProposta) -> (r: bool)
    ensures
        r == proposta_definida(player@, proposta@),
{
    if da_whitelist(proposta, "player.hp", "somar") {
        match proposta.valor.as_i64() {
            Some(delta) => {
                let soma: i128 = player.hp.atual as i128 + delta as i128;
                player.hp.maximo >= 0 && soma >= i64::MIN as i128 && soma <= i64::MAX as i128
            },
            None => true,
        }
    } else if da_whitelist(proposta, "player.moedas", "somar") {
        match proposta.valor.as_i64() {
            Some(delta) => player.moedas as i128 + delta as i128 <= i64::MAX as i128,
            None => true,
        }
    } else if da_whitelist(proposta, "player.inventario", "adicionar") {
        match proposta.valor.as_str() {
            Some(item) => match posicao_no_inventario(&player.inventario, item) {
                Some(i) => player.inventario[i].quantidade < u32::MAX,
                None => true,
            },
            None => true,
        }
    } else if da_whitelist(proposta, "player.inventario", "remover") {
        match proposta.valor.as_str() {
            Some(item) => match posicao_no_inventario(&player.inventario, item) {
                Some(i) => player.inventario[i].quantidade > 0,
                None => true,
            },
            None => true,
        }
    } else {
        true
    }
}

/// O que [`aplicar`] e as suas partes prometem.
pub open spec fn cumpre(
    esperado: Aplicacao,
    antes: PlayerView,
    depois: PlayerView,
    obtido: Result<Event, String>,
) -> bool {
    match obtido {
        Ok(e) => esperado == Ok::<(PlayerView, Fato), Seq<char>>((depois, e.fato()))
            && identificador_valido(e.event_id),
        Err(motivo) => esperado == Err::<(PlayerView, Fato), Seq<char>>(motivo@) && depois == antes,
    }
}

fn aplicar_hp(player: &mut Player, turno: u64, valor: &Valor) -> (r: Result<Event, String>)
    requires
        valor@.inteiro() matches Some(delta) ==> {
            &&& old(player).hp.maximo >= 0
            &&& i64::MIN <= old(player).hp.atual + delta <= i64::MAX
        },
    ensures
        cumpre(soma_hp(old(player)@, turno, valor@), old(player)@, final(player)@, r),
{
    match valor.as_i64() {
        None => Err("valor de player.hp nao e um inteiro".to_string()),
        Some(delta) => {
            let anterior: i32 = player.hp.atual;
            let soma: i64 = anterior as i64 + delta;
            let novo: i32 = if soma < 0 {
                0
            } else if soma > player.hp.maximo as i64 {
                player.hp.maximo
            } else {
                soma as i32
            };
            if novo == anterior {
                return Err(
                    "player.hp: proposta nao muda o valor atual (no-op), descartando".to_string(),
                );
            }
            player.hp.atual = novo;
            let payload = Tabela::new().com("campo", Valor::de_texto("player.hp")).com(
                "operacao",
                Valor::de_texto("somar"),
            ).com("valor", Valor::Inteiro(delta as i128)).com(
                "anterior",
                Valor::Inteiro(anterior as i128),
            ).com("atual", Valor::Inteiro(novo as i128));
            Ok(Event::new(EventType::MudancaEstado, "orquestrador", turno, payload))
        },
    }
}

fn aplicar_moedas(player: &mut Player, turno: u64, valor: &Valor) -> (r: Result<Event, String>)
    requires
        valor@.inteiro() matches Some(delta) ==> old(player).moedas + delta <= i64::MAX,
    ensures
        cumpre(soma_moedas(old(player)@, turno, valor@), old(player)@, final(player)@, r),
{
    match valor.as_i64() {
        None => Err("valor de player.moedas nao e um inteiro".to_string()),
        Some(delta) => {
            let anterior: u32 = player.moedas;
            let soma: i64 = anterior as i64 + delta;
            let positiva: i64 = if soma < 0 {
                0
            } else {
                soma
            };
            let novo: u32 = (positiva % 0x1_0000_0000) as u32;
            if novo == anterior {
                return Err(
                    "player.moedas: proposta nao muda o valor atual (no-op), descartando".to_string(),
                );
            }
            player.moedas = novo;
            let payload = Tabela::new().com("campo", Valor::de_texto("player.moedas")).com(
                "operacao",
                Valor::de_texto("somar"),
            ).com("valor", Valor::Inteiro(delta as i128)).com(
                "anterior",
                Valor::Inteiro(anterior as i128),
            ).com("atual", Valor::Inteiro(novo as i128));
            Ok(Event::new(EventType::MudancaEstado, "orquestrador", turno, payload))
        },
    }
}

fn evento_de_inventario(turno: u64, operacao: &str, item: &str, quantidade: u32) -> (e: Event)
    ensures
        e.fato() == fato_inventario(turno, operacao@, item@, quantidade as int),
        identificador_valido(e.event_id),
{
    let payload = Tabela::new().com("campo", Valor::de_texto("player.inventario")).com(
        "operacao",
        Valor::de_texto(operacao),
    ).com("valor", Valor::de_texto(item)).com("quantidade", Valor::Inteiro(quantidade as i128));
    Event::new(EventType::MudancaEstado, "orquestrador", turno, payload)
}

fn aplicar_adicao(player: &mut Player, turno: u64, proposta: &MudancaProposta) -> (r: Result<
    Event,
    String,
>)
    requires
        proposta@.valor.texto() matches Some(item) ==> (posicao_item(
            old(player)@.inventario,
            item,
            0,
        ) matches Some(i) ==> old(player)@.inventario[i].quantidade < u32::MAX),
    ensures
        cumpre(adiciona_item(old(player)@, turno, proposta@), old(player)@, final(player)@, r),
{
    let ghost antes = player@;
    match proposta.valor.as_str() {
        None => Err("valor de player.inventario nao e uma string".to_string()),
        Some(item) => {
            let quantidade: u32 = match posicao_no_inventario(&player.inventario, item) {
                Some(i) => {
                    let q: u32 = player.inventario[i].quantidade + 1;
                    player.inventario[i].quantidade = q;
                    assert(player@.inventario =~= com_item(
                        antes.inventario,
                        item@,
                        proposta@.categoria,
                    ));
                    q
                },
                None => {
                    let categoria = match &proposta.categoria {
                        Some(c) => c.clone(),
                        None => String::new(),
                    };
                    let novo = ItemInventario { nome: item.to_string(), quantidade: 1, categoria };
                    let ghost visto = novo@;
                    player.inventario.push(novo);
                    assert(player@.inventario =~= antes.inventario.push(visto));
                    1
                },
            };
            Ok(evento_de_inventario(turno, "adicionar", item, quantidade))
        },
    }
}

fn aplicar_remocao(player: &mut Player, turno: u64, proposta: &MudancaProposta) -> (r: Result<
    Event,
    String,
>)
    requires
        proposta@.valor.texto() matches Some(item) ==> (posicao_item(
            old(player)@.inventario,
            item,
            0,
        ) matches Some(i) ==> old(player)@.inventario[i].quantidade > 0),
    ensures
        cumpre(remove_item(old(player)@, turno, proposta@), old(player)@, final(player)@, r),
{
    let ghost antes = player@;
    match proposta.valor.as_str() {
        None => Err("valor de player.inventario nao e uma string".to_string()),
        Some(item) => match posicao_no_inventario(&player.inventario, item) {
            None => {
                let mut motivo = "item '".to_string();
                motivo.append(item);
                motivo.append("' nao esta no inventario, rejeitando remocao");
                Err(motivo)
            },
            Some(i) => {
                let quantidade: u32 = player.inventario[i].quantidade - 1;
                if quantidade == 0 {
                    player.inventario.remove(i);
                } else {
                    player.inventario[i].quantidade = quantidade;
                }
                assert(player@.inventario =~= sem_unidade(antes.inventario, i as int));
                Ok(evento_de_inventario(turno, "remover", item, quantidade))
            },
        },
    }
}

fn aplicar_local(player: &mut Player, turno: u64, proposta: &MudancaProposta) -> (r: Result<
    Event,
    String,
>)
    ensures
        cumpre(define_local(old(player)@, turno, proposta@), old(player)@, final(player)@, r),
{
    match proposta.valor.as_str() {
        None => Err("valor de player.location_id nao e uma string".to_string()),
        Some(destino) => {
            if so_espaco(destino) {
                return Err("destino vazio, rejeitando".to_string());
            }
            let payload = Tabela::new().com("campo", Valor::de_texto("player.location_id")).com(
                "operacao",
                Valor::de_texto("definir"),
            ).com("valor", Valor::de_texto(destino)).com(
                "anterior",
                Valor::de_texto(player.location_id.as_str()),
            );
            player.location_id = destino.to_string();
            Ok(Event::new(EventType::MudancaEstado, "orquestrador", turno, payload))
        },
    }
}

/// Aplica uma proposta à ficha em memória; persistir é com quem chama. Devolve
/// o evento da mudança, ou a razão da rejeição, e então a ficha fica como
/// estava.
pub fn aplicar(player: &mut Player, turno: u64, proposta: &MudancaProposta) -> (r: Result<
    Event,
    String,
>)
    requires
        proposta_definida(old(player)@, proposta@),
    ensures
        cumpre(aplicacao(old(player)@, turno, proposta@), old(player)@, final(player)@, r),
{
    if da_whitelist(proposta, "player.hp", "somar") {
        aplicar_hp(player, turno, &proposta.valor)
    } else if da_whitelist(proposta, "player.moedas", "somar") {
        aplicar_moedas(player, turno, &proposta.valor)
    } else if da_whitelist(proposta, "player.inventario", "adicionar") {
        aplicar_adicao(player, turno, proposta)
    } else if da_whitelist(proposta, "player.inventario", "remover") {
        aplicar_remocao(player, turno, proposta)
    } else if da_whitelist(proposta, "player.location_id", "definir") {
        aplicar_local(player, turno, proposta)
    } else {
        let mut motivo = "campo/operacao fora da whitelist: ".to_string();
        motivo.append(proposta.campo.as_str());
        motivo.append(" / ");
        motivo.append(proposta.operacao.as_str());
        Err(motivo)
    }
}

// ---------------------------------------------------------------------------
// Leis da aplicação
// ---------------------------------------------------------------------------

/// Uma ficha em ordem: pontos de vida de zero ao máximo, todo item com pelo
/// menos uma unidade, nenhum nome de item repetido.
pub open spec fn ficha_valida(p: PlayerView) -> bool {
    &&& 0 <= p.hp.atual <= p.hp.maximo
    &&& forall|i: int|
        0 <= i < p.inventario.len() ==> (#[trigger] p.inventario[i]).quantidade >= 1
    &&& forall|i: int, j: int|
        0 <= i < j < p.inventario.len() ==> (#[trigger] p.inventario[i]).nome != (
        #[trigger] p.inventario[j]).nome
}

/// Toda proposta aceita deixa em ordem uma ficha que estava em ordem.
pub proof fn lei_proposta_preserva_ficha(p: PlayerView, turno: u64, m: PropostaView)
    requires
        ficha_valida(p),
        proposta_definida(p, m),
    ensures
        aplicacao(p, turno, m) matches Ok(r) ==> ficha_valida(r.0),
{
    match m.valor.texto() {
        Some(item) => {
            lema_posicao_item(p.inventario, item, 0);
            if aplicacao(p, turno, m) is Ok {
                let q = aplicacao(p, turno, m)->Ok_0.0;
                if trata_de(m, "player.inventario"@, "adicionar"@) {
                    assert forall|i: int, j: int| 0 <= i < j < q.inventario.len() implies (
                    #[trigger] q.inventario[i]).nome != (#[trigger] q.inventario[j]).nome by {
                        if j < p.inventario.len() {
                            assert(p.inventario[i].nome != p.inventario[j].nome);
                        } else {
                            assert(p.inventario[i].nome != item);
                        }
                    }
                } else if trata_de(m, "player.inventario"@, "remover"@) {
                    let k = posicao_item(p.inventario, item, 0)->0;
                    let tirou = p.inventario[k].quantidade == 1;
                    assert forall|i: int| 0 <= i < q.inventario.len() implies (
                    #[trigger] q.inventario[i]).quantidade >= 1 by {
                        let a = if tirou && i >= k {
                            i + 1
                        } else {
                            i
                        };
                        assert(p.inventario[a].quantidade >= 1);
                    }
                    assert forall|i: int, j: int| 0 <= i < j < q.inventario.len() implies (
                    #[trigger] q.inventario[i]).nome != (#[trigger] q.inventario[j]).nome by {
                        let a = if tirou && i >= k {
                            i + 1
                        } else {
                            i
                        };
                        let b = if tirou && j >= k {
                            j + 1
                        } else {
                            j
                        };
                        assert(p.inventario[a].nome != p.inventario[b].nome);
                    }
                }
            }
        },
        None => {},
    }
}

/// Uma proposta sobre os pontos de vida, se aceita, os deixa de zero ao
/// máximo, viessem de onde viessem.
pub proof fn lei_hp_no_intervalo(p: PlayerView, turno: u64, m: PropostaView)
    requires
        proposta_definida(p, m),
        trata_de(m, "player.hp"@, "somar"@),
    ensures
        aplicacao(p, turno, m) matches Ok(r) ==> 0 <= r.0.hp.atual <= r.0.hp.maximo && r.0.hp.atual
            != p.hp.atual,
{
}

/// Uma proposta só é aceita se o par de campo e operação está na lista
/// fechada, e nenhuma muda o identificador, o máximo de pontos de vida, os
/// atributos, o nível, a classe, o XP ou o nome do personagem.
pub proof fn lei_lista_fechada(p: PlayerView, turno: u64, m: PropostaView)
    ensures
        aplicacao(p, turno, m) matches Ok(r) ==> {
            &&& {
                ||| trata_de(m, "player.hp"@, "somar"@)
                ||| trata_de(m, "player.moedas"@, "somar"@)
                ||| trata_de(m, "player.inventario"@, "adicionar"@)
                ||| trata_de(m, "player.inventario"@, "remover"@)
                ||| trata_de(m, "player.location_id"@, "definir"@)
            }
            &&& r.0 == (PlayerView {
                hp: crate::state::Hp { atual: r.0.hp.atual, maximo: p.hp.maximo },
                moedas: r.0.moedas,
                inventario: r.0.inventario,
                location_id: r.0.location_id,
                ..p
            })
            &&& r.1.event_type == EventType::MudancaEstado
            &&& r.1.turn == turno
        },
{
}

/// Uma proposta sobre as moedas, se aceita, as muda; e enquanto a soma cabe em
/// 32 bits o resultado é a soma, ou zero se ela é negativa.
pub proof fn lei_moedas(p: PlayerView, turno: u64, m: PropostaView, delta: i64)
    requires
        trata_de(m, "player.moedas"@, "somar"@),
        m.valor.inteiro() == Some(delta),
    ensures
        aplicacao(p, turno, m) matches Ok(r) ==> {
            &&& r.0.moedas != p.moedas
            &&& p.moedas + delta <= u32::MAX ==> r.0.moedas == nao_negativo(p.moedas + delta)
        },
{
    reveal_strlit("player.hp");
    reveal_strlit("player.moedas");
    assert("player.hp"@.len() != "player.moedas"@.len());
}

/// Retirar um item que o jogador não tem é sempre rejeitado.
pub proof fn lei_remover_inexistente(p: PlayerView, turno: u64, m: PropostaView, item: Seq<char>)
    requires
        trata_de(m, "player.inventario"@, "remover"@),
        m.valor == ValorView::Texto(item),
        !tem_item(p.inventario, item),
    ensures
        aplicacao(p, turno, m) == Err::<(PlayerView, Fato), Seq<char>>(
            "item '"@ + item + "' nao esta no inventario, rejeitando remocao"@,
        ),
{
    reveal_strlit("player.hp");
    reveal_strlit("player.moedas");
    reveal_strlit("player.inventario");
    reveal_strlit("adicionar");
    reveal_strlit("remover");
    assert("player.hp"@.len() != "player.inventario"@.len());
    assert("player.moedas"@.len() != "player.inventario"@.len());
    assert("adicionar"@.len() != "remover"@.len());
    lema_posicao_item(p.inventario, item, 0);
}

/// Retirar uma unidade logo depois de acrescentá-la devolve o inventário que
/// havia, se o item já tinha unidades ou era novo.
pub proof fn lei_adicionar_e_remover(
    inventario: Seq<ItemView>,
    item: Seq<char>,
    categoria: Option<Seq<char>>,
)
    requires
        posicao_item(inventario, item, 0) matches Some(i) ==> 1 <= inventario[i].quantidade
            < u32::MAX,
    ensures
        posicao_item(com_item(inventario, item, categoria), item, 0) matches Some(i) && sem_unidade(
            com_item(inventario, item, categoria),
            i,
        ) == inventario,
{
    let depois = com_item(inventario, item, categoria);
    lema_posicao_item(inventario, item, 0);
    lema_posicao_item(depois, item, 0);
    match posicao_item(inventario, item, 0) {
        Some(i) => {
            assert(depois[i].nome == item);
            let k = posicao_item(depois, item, 0)->0;
            assert(k == i) by {
                if k < i {
                    assert(inventario[k].nome != item);
                }
            }
            assert(sem_unidade(depois, i) =~= inventario);
        },
        None => {
            assert(depois[inventario.len() as int].nome == item);
            let k = posicao_item(depois, item, 0)->0;
            assert(k == inventario.len()) by {
                if k < inventario.len() {
                    assert(inventario[k].nome != item);
                }
            }
            assert(sem_unidade(depois, k) =~= inventario);
        },
    }
}

// ---------------------------------------------------------------------------
// Várias propostas
// ---------------------------------------------------------------------------

/// A ficha depois das `n` primeiras propostas: as aceitas mudam, as rejeitadas
/// não.
pub open spec fn ficha_apos(p: PlayerView, turno: u64, ms: Seq<PropostaView>, n: int) -> PlayerView
    decreases n,
{
    if n <= 0 {
        p
    } else {
        let antes = ficha_apos(p, turno, ms, n - 1);
        match aplicacao(antes, turno, ms[n - 1]) {
            Ok(r) => r.0,
            Err(_) => antes,
        }
    }
}

/// O que as `n` primeiras propostas contam: um evento por proposta aceita.
pub open spec fn fatos_apos(p: PlayerView, turno: u64, ms: Seq<PropostaView>, n: int) -> Seq<Fato>
    decreases n,
{
    if n <= 0 {
        Seq::empty()
    } else {
        let antes = fatos_apos(p, turno, ms, n - 1);
        match aplicacao(ficha_apos(p, turno, ms, n - 1), turno, ms[n - 1]) {
            Ok(r) => antes.push(r.1),
            Err(_) => antes,
        }
    }
}

/// A proposta `i` cabe nos números da ficha que encontra.
pub open spec fn cabe_na_vez(p: PlayerView, turno: u64, ms: Seq<PropostaView>, i: int) -> bool {
    proposta_definida(ficha_apos(p, turno, ms, i), ms[i])
}

/// Aplica as propostas na ordem, acrescentando um evento por proposta aceita.
/// Se uma delas não cabe nos números da ficha, para antes dela e diz qual é.
pub fn aplicar_propostas(
    player: &mut Player,
    turno: u64,
    propostas: &[MudancaProposta],
    eventos: &mut Vec<Event>,
) -> (r: Result<(), usize>)
    ensures
        ({
            let ms = propostas_vistas(propostas@);
            let n = match r {
                Ok(_) => ms.len() as int,
                Err(i) => i as int,
            };
            &&& 0 <= n <= ms.len()
            &&& final(player)@ == ficha_apos(old(player)@, turno, ms, n)
            &&& fatos(final(eventos)@) == fatos(old(eventos)@) + fatos_apos(
                old(player)@,
                turno,
                ms,
                n,
            )
            &&& forall|i: int| 0 <= i < n ==> #[trigger] cabe_na_vez(old(player)@, turno, ms, i)
            &&& r is Err ==> n < ms.len() && !cabe_na_vez(old(player)@, turno, ms, n)
        }),
        identificados(old(eventos)@) ==> identificados(final(eventos)@),
{
    let ghost p0 = player@;
    let ghost f0 = fatos(eventos@);
    let ghost ms = propostas_vistas(propostas@);
    let mut i: usize = 0;
    assert(f0 =~= f0 + fatos_apos(p0, turno, ms, 0));
    while i < propostas.len()
        invariant
            i <= propostas@.len(),
            ms == propostas_vistas(propostas@),
            p0 == old(player)@,
            f0 == fatos(old(eventos)@),
            player@ == ficha_apos(p0, turno, ms, i as int),
            fatos(eventos@) == f0 + fatos_apos(p0, turno, ms, i as int),
            forall|j: int| 0 <= j < i ==> #[trigger] cabe_na_vez(p0, turno, ms, j),
            identificados(old(eventos)@) ==> identificados(eventos@),
        decreases propostas@.len() - i,
    {
        assert(ms[i as int] == propostas@[i as int]@);
        if !proposta_cabe(player, &propostas[i]) {
            return Err(i);
        }
        let ghost antes = eventos@;
        match aplicar(player, turno, &propostas[i]) {
            Ok(evento) => {
                let ghost fato = evento.fato();
                eventos.push(evento);
                assert(fatos(eventos@) =~= fatos(antes).push(fato));
                assert(fatos(eventos@) =~= f0 + fatos_apos(p0, turno, ms, i + 1));
            },
            Err(_) => {},
        }
        assert(cabe_na_vez(p0, turno, ms, i as int));
        i += 1;
    }
    Ok(())
}

/// Aplicar várias propostas deixa em ordem uma ficha que estava em ordem.
pub proof fn lei_propostas_preservam_ficha(
    p: PlayerView,
    turno: u64,
    ms: Seq<PropostaView>,
    n: int,
)
    requires
        0 <= n <= ms.len(),
        ficha_valida(p),
        forall|i: int| 0 <= i < n ==> #[trigger] cabe_na_vez(p, turno, ms, i),
    ensures
        ficha_valida(ficha_apos(p, turno, ms, n)),
    decreases n,
{
    if n > 0 {
        lei_propostas_preservam_ficha(p, turno, ms, n - 1);
        assert(cabe_na_vez(p, turno, ms, n - 1));
        lei_proposta_preserva_ficha(ficha_apos(p, turno, ms, n - 1), turno, ms[n - 1]);
    }
}

// ---------------------------------------------------------------------------
// Leis de cada operação, sobre a ficha e o evento
// ---------------------------------------------------------------------------

proof fn lema_lista_distinta()
    ensures
        "player.hp"@ != "player.moedas"@,
        "player.hp"@ != "player.inventario"@,
        "player.hp"@ != "player.location_id"@,
        "player.moedas"@ != "player.inventario"@,
        "player.moedas"@ != "player.location_id"@,
        "player.inventario"@ != "player.location_id"@,
        "adicionar"@ != "remover"@,
        "adicionar"@ != "definir"@,
        "remover"@ != "definir"@,
        "somar"@ != "definir"@,
{
    reveal_strlit("player.hp");
    reveal_strlit("player.moedas");
    reveal_strlit("player.inventario");
    reveal_strlit("player.location_id");
    reveal_strlit("adicionar");
    reveal_strlit("remover");
    reveal_strlit("definir");
    reveal_strlit("somar");
    assert("player.hp"@.len() == 9 && "player.moedas"@.len() == 13);
    assert("player.inventario"@.len() == 17 && "player.location_id"@.len() == 18);
    assert("adicionar"@.len() == 9 && "somar"@.len() == 5);
    assert("remover"@[0] == 'r' && "definir"@[0] == 'd');
}

/// Somar aos pontos de vida muda exatamente o que se pediu enquanto a soma fica
/// de zero ao máximo; abaixo de zero fica em zero e acima do máximo no máximo. É
/// aceito quando isso muda alguma coisa, nada mais da ficha muda, e o evento diz
/// quanto se somou, quanto havia e quanto há.
pub proof fn lei_soma_hp(p: PlayerView, turno: u64, m: PropostaView, delta: int)
    requires
        trata_de(m, "player.hp"@, "somar"@),
        m.valor == ValorView::Inteiro(delta),
        i64::MIN <= delta <= i64::MAX,
        p.hp.maximo >= 0,
    ensures
        ({
            let r = aplicacao(p, turno, m);
            let soma = p.hp.atual + delta;
            let q = r->Ok_0.0;
            let f = r->Ok_0.1;
            &&& 0 <= soma <= p.hp.maximo ==> (r is Ok <==> delta != 0) && (r is Ok ==> q.hp.atual
                == soma)
            &&& soma < 0 ==> (r is Ok <==> p.hp.atual != 0) && (r is Ok ==> q.hp.atual == 0)
            &&& soma > p.hp.maximo ==> (r is Ok <==> p.hp.atual != p.hp.maximo) && (r is Ok
                ==> q.hp.atual == p.hp.maximo)
            &&& r is Ok ==> {
                &&& q == (PlayerView {
                    hp: crate::state::Hp { atual: q.hp.atual, maximo: p.hp.maximo },
                    ..p
                })
                &&& f == (Fato {
                    event_type: EventType::MudancaEstado,
                    source: "orquestrador"@,
                    turn: turno,
                    payload: vazio().insert("campo"@, ValorView::Texto("player.hp"@)).insert(
                        "operacao"@,
                        ValorView::Texto("somar"@),
                    ).insert("valor"@, ValorView::Inteiro(delta)).insert(
                        "anterior"@,
                        ValorView::Inteiro(p.hp.atual as int),
                    ).insert("atual"@, ValorView::Inteiro(q.hp.atual as int)),
                })
            }
        }),
{
}

/// Somar às moedas muda exatamente o que se pediu enquanto a soma não é negativa
/// e cabe em 32 bits; negativa, fica em zero. É aceito quando isso muda alguma
/// coisa, nada mais da ficha muda, e o evento diz quanto se somou, quanto havia e
/// quanto há.
pub proof fn lei_soma_moedas(p: PlayerView, turno: u64, m: PropostaView, delta: int)
    requires
        trata_de(m, "player.moedas"@, "somar"@),
        m.valor == ValorView::Inteiro(delta),
        i64::MIN <= delta <= i64::MAX,
    ensures
        ({
            let r = aplicacao(p, turno, m);
            let soma = p.moedas + delta;
            let q = r->Ok_0.0;
            let f = r->Ok_0.1;
            &&& 0 <= soma <= u32::MAX ==> (r is Ok <==> delta != 0) && (r is Ok ==> q.moedas
                == soma)
            &&& soma < 0 ==> (r is Ok <==> p.moedas != 0) && (r is Ok ==> q.moedas == 0)
            &&& soma > u32::MAX && r is Ok ==> (soma - q.moedas) % 0x1_0000_0000 == 0
            &&& soma > u32::MAX && r is Err ==> delta % 0x1_0000_0000 == 0
            &&& r is Ok ==> {
                &&& q == (PlayerView { moedas: q.moedas, ..p })
                &&& q.moedas != p.moedas
                &&& f == (Fato {
                    event_type: EventType::MudancaEstado,
                    source: "orquestrador"@,
                    turn: turno,
                    payload: vazio().insert("campo"@, ValorView::Texto("player.moedas"@)).insert(
                        "operacao"@,
                        ValorView::Texto("somar"@),
                    ).insert("valor"@, ValorView::Inteiro(delta)).insert(
                        "anterior"@,
                        ValorView::Inteiro(p.moedas as int),
                    ).insert("atual"@, ValorView::Inteiro(q.moedas as int)),
                })
            }
        }),
{
    lema_lista_distinta();
}

/// Somas seguidas se juntam: se a primeira e as duas juntas ficam nos limites,
/// somar uma e depois a outra aos pontos de vida dá o mesmo que somar as duas.
pub proof fn lei_somas_se_juntam(
    p: PlayerView,
    turno: u64,
    a: PropostaView,
    b: PropostaView,
    ab: PropostaView,
    da: int,
    db: int,
)
    requires
        trata_de(a, "player.hp"@, "somar"@),
        trata_de(b, "player.hp"@, "somar"@),
        trata_de(ab, "player.hp"@, "somar"@),
        a.valor == ValorView::Inteiro(da),
        b.valor == ValorView::Inteiro(db),
        ab.valor == ValorView::Inteiro(da + db),
        i64::MIN <= da <= i64::MAX,
        i64::MIN <= db <= i64::MAX,
        da != 0,
        db != 0,
        da + db != 0,
        0 <= p.hp.atual + da <= p.hp.maximo,
        0 <= p.hp.atual + da + db <= p.hp.maximo,
    ensures
        aplicacao(p, turno, a) is Ok,
        aplicacao(aplicacao(p, turno, a)->Ok_0.0, turno, b) is Ok,
        aplicacao(p, turno, ab) is Ok,
        aplicacao(aplicacao(p, turno, a)->Ok_0.0, turno, b)->Ok_0.0 == aplicacao(
            p,
            turno,
            ab,
        )->Ok_0.0,
{
}

/// O item está na posição `i` e em nenhuma antes dela.
pub open spec fn primeiro_com_nome(inventario: Seq<ItemView>, nome: Seq<char>, i: int) -> bool {
    &&& 0 <= i < inventario.len()
    &&& inventario[i].nome == nome
    &&& forall|j: int| 0 <= j < i ==> (#[trigger] inventario[j]).nome != nome
}

/// O evento de uma mudança no inventário diz a operação, o item e quantas
/// unidades há depois dela.
pub open spec fn conta_item(
    f: Fato,
    turno: u64,
    operacao: Seq<char>,
    item: Seq<char>,
    quantidade: int,
) -> bool {
    f == (Fato {
        event_type: EventType::MudancaEstado,
        source: "orquestrador"@,
        turn: turno,
        payload: vazio().insert("campo"@, ValorView::Texto("player.inventario"@)).insert(
            "operacao"@,
            ValorView::Texto(operacao),
        ).insert("valor"@, ValorView::Texto(item)).insert(
            "quantidade"@,
            ValorView::Inteiro(quantidade),
        ),
    })
}

/// Acrescentar um item sempre é aceito e só muda o inventário: um item novo entra
/// no fim com uma unidade e a categoria proposta; um que já havia ganha uma
/// unidade no lugar onde está, e os outros ficam como estavam.
pub proof fn lei_adicionar_item(p: PlayerView, turno: u64, m: PropostaView, item: Seq<char>)
    requires
        trata_de(m, "player.inventario"@, "adicionar"@),
        m.valor == ValorView::Texto(item),
        proposta_definida(p, m),
    ensures
        ({
            let r = aplicacao(p, turno, m);
            let q = r->Ok_0.0;
            let f = r->Ok_0.1;
            &&& r is Ok
            &&& q == (PlayerView { inventario: q.inventario, ..p })
            &&& (forall|i: int|
                0 <= i < p.inventario.len() ==> (#[trigger] p.inventario[i]).nome != item) ==> {
                &&& q.inventario == p.inventario.push(
                    ItemView {
                        nome: item,
                        quantidade: 1,
                        categoria: match m.categoria {
                            Some(c) => c,
                            None => Seq::empty(),
                        },
                    },
                )
                &&& conta_item(f, turno, "adicionar"@, item, 1)
            }
            &&& forall|i: int|
                #[trigger] primeiro_com_nome(p.inventario, item, i) ==> {
                    &&& q.inventario.len() == p.inventario.len()
                    &&& q.inventario[i].quantidade == p.inventario[i].quantidade + 1
                    &&& q.inventario[i].nome == item
                    &&& q.inventario[i].categoria == p.inventario[i].categoria
                    &&& forall|j: int|
                        0 <= j < p.inventario.len() && j != i ==> #[trigger] q.inventario[j]
                            == p.inventario[j]
                    &&& conta_item(
                        f,
                        turno,
                        "adicionar"@,
                        item,
                        p.inventario[i].quantidade + 1,
                    )
                }
        }),
{
    lema_lista_distinta();
    lema_posicao_item(p.inventario, item, 0);
    assert forall|i: int| #[trigger] primeiro_com_nome(p.inventario, item, i) implies posicao_item(
        p.inventario,
        item,
        0,
    ) == Some(i) by {
        match posicao_item(p.inventario, item, 0) {
            Some(k) => {
                if k < i {
                    assert(p.inventario[k].nome != item);
                }
                if i < k {
                    assert(p.inventario[i].nome != item);
                }
            },
            None => {
                assert(p.inventario[i].nome != item);
            },
        }
    }
}

/// Retirar um item que o jogador tem sempre é aceito e só muda o inventário: o
/// item perde uma unidade no lugar onde está, ou sai se era a última, e os outros
/// ficam como estavam, na ordem.
pub proof fn lei_remover_item(p: PlayerView, turno: u64, m: PropostaView, item: Seq<char>, i: int)
    requires
        trata_de(m, "player.inventario"@, "remover"@),
        m.valor == ValorView::Texto(item),
        primeiro_com_nome(p.inventario, item, i),
        p.inventario[i].quantidade >= 1,
    ensures
        ({
            let r = aplicacao(p, turno, m);
            let q = r->Ok_0.0;
            let f = r->Ok_0.1;
            &&& r is Ok
            &&& q == (PlayerView { inventario: q.inventario, ..p })
            &&& conta_item(f, turno, "remover"@, item, p.inventario[i].quantidade - 1)
            &&& p.inventario[i].quantidade == 1 ==> q.inventario == p.inventario.take(i)
                + p.inventario.skip(i + 1)
            &&& p.inventario[i].quantidade > 1 ==> {
                &&& q.inventario.len() == p.inventario.len()
                &&& q.inventario[i].quantidade == p.inventario[i].quantidade - 1
                &&& q.inventario[i].nome == item
                &&& q.inventario[i].categoria == p.inventario[i].categoria
                &&& forall|j: int|
                    0 <= j < p.inventario.len() && j != i ==> #[trigger] q.inventario[j]
                        == p.inventario[j]
            }
        }),
{
    lema_lista_distinta();
    lema_posicao_item(p.inventario, item, 0);
    match posicao_item(p.inventario, item, 0) {
        Some(k) => {
            if k < i {
                assert(p.inventario[k].nome != item);
            }
            if i < k {
                assert(p.inventario[i].nome != item);
            }
        },
        None => {
            assert(p.inventario[i].nome != item);
        },
    }
    if p.inventario[i].quantidade == 1 {
        assert(p.inventario.remove(i) =~= p.inventario.take(i) + p.inventario.skip(i + 1));
    }
}

/// Ir para um local é aceito exatamente quando o destino não é só espaço, e só
/// muda o local; o evento diz o destino e de onde o jogador saiu.
pub proof fn lei_definir_local(p: PlayerView, turno: u64, m: PropostaView, destino: Seq<char>)
    requires
        trata_de(m, "player.location_id"@, "definir"@),
        m.valor == ValorView::Texto(destino),
    ensures
        ({
            let r = aplicacao(p, turno, m);
            &&& r is Ok <==> exists|i: int|
                0 <= i < destino.len() && !crate::texto::espaco(#[trigger] destino[i])
            &&& r is Ok ==> r->Ok_0.0 == (PlayerView { location_id: destino, ..p }) && r->Ok_0.1
                == (Fato {
                event_type: EventType::MudancaEstado,
                source: "orquestrador"@,
                turn: turno,
                payload: vazio().insert("campo"@, ValorView::Texto("player.location_id"@)).insert(
                    "operacao"@,
                    ValorView::Texto("definir"@),
                ).insert("valor"@, ValorView::Texto(destino)).insert(
                    "anterior"@,
                    ValorView::Texto(p.location_id),
                ),
            })
        }),
{
    lema_lista_distinta();
}

/// Um valor do tipo errado é rejeitado: pontos de vida e moedas pedem um inteiro
/// de 64 bits, inventário e local pedem um texto.
pub proof fn lei_valor_do_tipo_errado(p: PlayerView, turno: u64, m: PropostaView)
    ensures
        trata_de(m, "player.hp"@, "somar"@) || trata_de(m, "player.moedas"@, "somar"@) ==> (!(
        m.valor matches ValorView::Inteiro(n) && i64::MIN <= n <= i64::MAX) ==> aplicacao(
            p,
            turno,
            m,
        ) is Err),
        trata_de(m, "player.inventario"@, "adicionar"@) || trata_de(
            m,
            "player.inventario"@,
            "remover"@,
        ) || trata_de(m, "player.location_id"@, "definir"@) ==> (!(m.valor is Texto) ==> aplicacao(
            p,
            turno,
            m,
        ) is Err),
{
    lema_lista_distinta();
}

proof fn lema_prefixo_de_propostas(
    p: PlayerView,
    turno: u64,
    a: Seq<PropostaView>,
    b: Seq<PropostaView>,
    n: int,
)
    requires
        0 <= n <= a.len(),
    ensures
        ficha_apos(p, turno, a + b, n) == ficha_apos(p, turno, a, n),
        fatos_apos(p, turno, a + b, n) == fatos_apos(p, turno, a, n),
    decreases n,
{
    if n > 0 {
        lema_prefixo_de_propostas(p, turno, a, b, n - 1);
        assert((a + b)[n - 1] == a[n - 1]);
    }
}

proof fn lema_sufixo_de_propostas(
    p: PlayerView,
    turno: u64,
    a: Seq<PropostaView>,
    b: Seq<PropostaView>,
    k: int,
)
    requires
        0 <= k <= b.len(),
    ensures
        ({
            let meio = ficha_apos(p, turno, a, a.len() as int);
            &&& ficha_apos(p, turno, a + b, a.len() + k) == ficha_apos(meio, turno, b, k)
            &&& fatos_apos(p, turno, a + b, a.len() + k) == fatos_apos(
                p,
                turno,
                a,
                a.len() as int,
            ) + fatos_apos(meio, turno, b, k)
        }),
    decreases k,
{
    let meio = ficha_apos(p, turno, a, a.len() as int);
    let contados = fatos_apos(p, turno, a, a.len() as int);
    if k == 0 {
        lema_prefixo_de_propostas(p, turno, a, b, a.len() as int);
        assert(contados + fatos_apos(meio, turno, b, 0) =~= contados);
    } else {
        lema_sufixo_de_propostas(p, turno, a, b, k - 1);
        assert((a + b)[a.len() + k - 1] == b[k - 1]);
        assert(fatos_apos(p, turno, a + b, a.len() + k) =~= contados + fatos_apos(
            meio,
            turno,
            b,
            k,
        ));
    }
}

/// Várias propostas valem uma depois da outra: nenhuma não muda nada; uma só vale
/// o que ela faz, e rejeitada não muda nem conta nada; e aplicar duas listas
/// seguidas é aplicar a segunda à ficha que a primeira deixou, contando o que as
/// duas contam, na ordem.
pub proof fn lei_propostas_em_sequencia(
    p: PlayerView,
    turno: u64,
    m: PropostaView,
    a: Seq<PropostaView>,
    b: Seq<PropostaView>,
)
    ensures
        ficha_apos(p, turno, Seq::empty(), 0) == p,
        fatos_apos(p, turno, Seq::empty(), 0).len() == 0,
        match aplicacao(p, turno, m) {
            Ok(r) => ficha_apos(p, turno, seq![m], 1) == r.0 && fatos_apos(p, turno, seq![m], 1)
                == seq![r.1],
            Err(_) => ficha_apos(p, turno, seq![m], 1) == p && fatos_apos(
                p,
                turno,
                seq![m],
                1,
            ).len() == 0,
        },
        ficha_apos(p, turno, a + b, (a.len() + b.len()) as int) == ficha_apos(
            ficha_apos(p, turno, a, a.len() as int),
            turno,
            b,
            b.len() as int,
        ),
        fatos_apos(p, turno, a + b, (a.len() + b.len()) as int) == fatos_apos(
            p,
            turno,
            a,
            a.len() as int,
        ) + fatos_apos(ficha_apos(p, turno, a, a.len() as int), turno, b, b.len() as int),
{
    reveal_with_fuel(ficha_apos, 2);
    reveal_with_fuel(fatos_apos, 2);
    lema_sufixo_de_propostas(p, turno, a, b, b.len() as int);
    if aplicacao(p, turno, m) is Ok {
        assert(fatos_apos(p, turno, seq![m], 1) =~= seq![aplicacao(p, turno, m)->Ok_0.1]);
    }
}

} // verus!
