//! A interação de um agente reativo com um jogador: o que se diz ao modelo, o
//! que se faz com a fala que ele gera e como a memória do par (NPC, jogador)
//! anda. Serve tanto ao turno do jogador quanto ao encontro com um NPC
//! autônomo.

use crate::consolidacao::{
    entrada_da_consolidacao, pedido_de_consolidacao, ResultadoConsolidacao, SYSTEM_PROMPT,
};
use crate::db::{com_troca, registrar_troca, TURNOS_POR_CONSOLIDACAO};
use crate::guardrail::{
    dados_vistos, escreve_resultado, palavra_do_resultado, prompt_do_revisor, GuardrailSaida,
    Passo, PassoView, RevisaoView,
};
use crate::llm::Pedido;
use crate::skills::ResultadoDados;
use crate::state::{
    trocas, Cena, CenaView, EstadoEmocionalView, MemoriaNpc, MemoriaView, Npc, NpcView,
};
use crate::texto::{
    decimal, escreve_decimal, juntado, juntar, lei_juntado_tem_as_partes, lema_tem_meio,
    lema_tem_trecho_de_trecho, tem_trecho, textos,
};
use vstd::prelude::*;

verus! {

/// Os eixos do estado emocional por extenso, cada um com uma casa decimal.
#[derive(Debug, Clone)]
pub struct EixosEscritos {
    pub prazer: String,
    pub ativacao: String,
    pub dominancia: String,
    pub confianca: String,
    pub respeito: String,
    pub afinidade: String,
}

/// O que fecha toda instrução de diálogo.
pub const CONSISTENCIA: &'static str =
    "Mantenha consistência com o que você mesmo disse antes e com os fatos estabelecidos. Responda em 1-2 frases curtas, em português, sempre em personagem, nunca saindo do papel.";

/// O formato das falas.
pub const FORMATO: &'static str =
    "FORMATO OBRIGATÓRIO: use *ação* para narrar gesto/expressão (sem aspas), e -fala para diálogo direto (traço no início da frase, sem aspas). Pode misturar os dois. Exemplos: '*cruza os braços* -Não recebo estranhos de bom grado.' ou '-Saia daqui. *aponta para a porta*'.";

// ---------------------------------------------------------------------------
// As instruções do agente
// ---------------------------------------------------------------------------

/// Quem o NPC é.
pub open spec fn parte_identidade(npc: NpcView) -> Seq<char> {
    "Você é "@ + npc.nome + ", um NPC num RPG de fantasia medieval. Sua atitude de base com o jogador é: "@
        + npc.atitude_com_jogador + "."@ + (if npc.descricao.len() == 0 {
        Seq::empty()
    } else {
        " "@ + npc.descricao
    })
}

/// O que o NPC quer, se quer alguma coisa.
pub open spec fn parte_interesses(npc: NpcView) -> Seq<Seq<char>> {
    if npc.interesses.len() == 0 {
        Seq::empty()
    } else {
        seq![
            "Suas motivações/necessidades concretas: "@ + juntado(npc.interesses, "; "@) + "."@,
        ]
    }
}

/// Onde o NPC está, e o que ele não pode contradizer.
pub open spec fn parte_cena(cena: CenaView) -> Seq<char> {
    "Você está em "@ + cena.nome + " ("@ + cena.descricao
        + "). Fatos estabelecidos sobre este lugar — você NÃO pode contradizer ou inventar por cima deles: "@
        + (if cena.fatos_estabelecidos.len() == 0 {
        "nenhum fato adicional registrado ainda."@
    } else {
        juntado(cena.fatos_estabelecidos, "; "@)
    })
}

/// Algum dos eixos do momento passa de um décimo.
pub open spec fn emocional_relevante(e: EstadoEmocionalView) -> bool {
    e.prazer.relevante() || e.ativacao.relevante() || e.dominancia.relevante()
}

/// O que o NPC sente, se sente alguma coisa.
pub open spec fn parte_emocional(e: EstadoEmocionalView, x: EixosEscritos) -> Seq<Seq<char>> {
    if emocional_relevante(e) {
        seq![
            "Seu estado emocional atual em relação a este jogador: prazer="@ + x.prazer@
                + ", ativação="@ + x.ativacao@ + ", dominância="@ + x.dominancia@
                + ", confiança="@ + x.confianca@ + ", respeito="@ + x.respeito@ + ", afinidade="@
                + x.afinidade@ + ". "@ + (if e.lente_perceptiva.len() == 0 {
                Seq::empty()
            } else {
                "Você está enxergando o jogador através de: "@ + e.lente_perceptiva + ". "@
            }) + (if e.motivacao_imediata.len() == 0 {
                Seq::empty()
            } else {
                "Sua motivação imediata agora: "@ + e.motivacao_imediata + "."@
            }),
        ]
    } else {
        Seq::empty()
    }
}

/// O que o NPC lembra em resumo, se lembra alguma coisa.
pub open spec fn parte_resumo(resumo: Seq<char>) -> Seq<Seq<char>> {
    if resumo.len() == 0 {
        Seq::empty()
    } else {
        seq!["Resumo do que já aconteceu entre vocês: "@ + resumo]
    }
}

/// O resultado do teste do turno, se houve um.
pub open spec fn parte_dados(resultado: Option<ResultadoDados>) -> Seq<Seq<char>> {
    match resultado {
        None => Seq::empty(),
        Some(r) => seq![
            "O jogador tentou uma ação que exigiu um teste de dados. Resultado JÁ DECIDIDO, você não pode contradizer: rolagem "@
                + decimal(r.rolagem as int) + " contra dificuldade "@ + decimal(
                r.dificuldade as int,
            ) + " → "@ + palavra_do_resultado(r.sucesso)
                + ". Narre sua reação de forma consistente com esse resultado."@,
        ],
    }
}

/// O aviso contra repetir uma frase recente, se há uma.
pub open spec fn parte_repeticao(evitar_frase: Option<Seq<char>>) -> Seq<Seq<char>> {
    match evitar_frase {
        None => Seq::empty(),
        Some(frase) => seq![
            "IMPORTANTE: você (ou outro personagem por aqui) já disse algo muito parecido com isto recentemente — não repita: \""@
                + frase + "\". Responda de um jeito genuinamente diferente."@,
        ],
    }
}

/// As partes das instruções de um agente, na ordem.
pub open spec fn partes_do_agente(
    npc: NpcView,
    cena: CenaView,
    memoria: MemoriaView,
    eixos: EixosEscritos,
    resultado: Option<ResultadoDados>,
    evitar_frase: Option<Seq<char>>,
) -> Seq<Seq<char>> {
    seq![parte_identidade(npc)] + parte_interesses(npc) + seq![parte_cena(cena)] + parte_emocional(
        memoria.estado_emocional,
        eixos,
    ) + parte_resumo(memoria.resumo) + parte_dados(resultado) + seq![CONSISTENCIA@, FORMATO@]
        + parte_repeticao(evitar_frase)
}

/// As instruções de um agente.
pub open spec fn prompt_do_agente(
    npc: NpcView,
    cena: CenaView,
    memoria: MemoriaView,
    eixos: EixosEscritos,
    resultado: Option<ResultadoDados>,
    evitar_frase: Option<Seq<char>>,
) -> Seq<char> {
    juntado(partes_do_agente(npc, cena, memoria, eixos, resultado, evitar_frase), "\n\n"@)
}

fn escrever_identidade(npc: &Npc) -> (r: String)
    ensures
        r@ == parte_identidade(npc@),
{
    let mut r = "Você é ".to_string();
    r.append(npc.nome.as_str());
    r.append(", um NPC num RPG de fantasia medieval. Sua atitude de base com o jogador é: ");
    r.append(npc.atitude_com_jogador.as_str());
    r.append(".");
    if npc.descricao.as_str().unicode_len() > 0 {
        r.append(" ");
        r.append(npc.descricao.as_str());
    }
    assert(r@ =~= parte_identidade(npc@));
    r
}

fn escrever_cena(cena: &Cena) -> (r: String)
    ensures
        r@ == parte_cena(cena@),
{
    let mut r = "Você está em ".to_string();
    r.append(cena.nome.as_str());
    r.append(" (");
    r.append(cena.descricao.as_str());
    r.append(
        "). Fatos estabelecidos sobre este lugar — você NÃO pode contradizer ou inventar por cima deles: ",
    );
    if cena.fatos_estabelecidos.len() == 0 {
        r.append("nenhum fato adicional registrado ainda.");
    } else {
        r.append(juntar(cena.fatos_estabelecidos.as_slice(), "; ").as_str());
    }
    r
}

fn escrever_emocional(memoria: &MemoriaNpc, eixos: &EixosEscritos) -> (r: Option<String>)
    ensures
        parte_emocional(memoria@.estado_emocional, *eixos) == (match r {
            Some(s) => seq![s@],
            None => Seq::<Seq<char>>::empty(),
        }),
{
    let e = &memoria.estado_emocional;
    if !(e.prazer.eh_relevante() || e.ativacao.eh_relevante() || e.dominancia.eh_relevante()) {
        return None;
    }
    let mut r = "Seu estado emocional atual em relação a este jogador: prazer=".to_string();
    r.append(eixos.prazer.as_str());
    r.append(", ativação=");
    r.append(eixos.ativacao.as_str());
    r.append(", dominância=");
    r.append(eixos.dominancia.as_str());
    r.append(", confiança=");
    r.append(eixos.confianca.as_str());
    r.append(", respeito=");
    r.append(eixos.respeito.as_str());
    r.append(", afinidade=");
    r.append(eixos.afinidade.as_str());
    r.append(". ");
    let ghost cabeca = r@;
    if e.lente_perceptiva.as_str().unicode_len() > 0 {
        r.append("Você está enxergando o jogador através de: ");
        r.append(e.lente_perceptiva.as_str());
        r.append(". ");
    }
    let ghost meio = r@;
    if e.motivacao_imediata.as_str().unicode_len() > 0 {
        r.append("Sua motivação imediata agora: ");
        r.append(e.motivacao_imediata.as_str());
        r.append(".");
    }
    proof {
        let lente: Seq<char> = if e@.lente_perceptiva.len() == 0 {
            Seq::empty()
        } else {
            "Você está enxergando o jogador através de: "@ + e@.lente_perceptiva + ". "@
        };
        let motivo: Seq<char> = if e@.motivacao_imediata.len() == 0 {
            Seq::empty()
        } else {
            "Sua motivação imediata agora: "@ + e@.motivacao_imediata + "."@
        };
        assert(meio =~= cabeca + lente);
        assert(r@ =~= meio + motivo);
        assert(seq![r@] =~= parte_emocional(memoria@.estado_emocional, *eixos));
    }
    Some(r)
}

fn escrever_dados(r: &ResultadoDados) -> (s: String)
    ensures
        seq![s@] == parte_dados(Some(*r)),
{
    let mut s =
        "O jogador tentou uma ação que exigiu um teste de dados. Resultado JÁ DECIDIDO, você não pode contradizer: rolagem ".to_string();
    s.append(escreve_decimal(r.rolagem as u64).as_str());
    s.append(" contra dificuldade ");
    s.append(escreve_decimal(r.dificuldade as u64).as_str());
    s.append(" → ");
    s.append(escreve_resultado(r.sucesso));
    s.append(". Narre sua reação de forma consistente com esse resultado.");
    s
}

/// Monta as instruções de um agente. `eixos` são os eixos do estado emocional
/// da memória por extenso.
pub fn montar_system_prompt(
    npc: &Npc,
    cena: &Cena,
    memoria: &MemoriaNpc,
    eixos: &EixosEscritos,
    resultado_dados: Option<&ResultadoDados>,
    evitar_frase: Option<&str>,
) -> (r: String)
    ensures
        r@ == prompt_do_agente(
            npc@,
            cena@,
            memoria@,
            *eixos,
            dados_vistos(resultado_dados),
            match evitar_frase {
                Some(f) => Some(f@),
                None => None,
            },
        ),
{
    let mut partes: Vec<String> = Vec::new();
    partes.push(escrever_identidade(npc));
    let ghost p1 = seq![parte_identidade(npc@)];
    assert(textos(partes@) =~= p1);
    if npc.interesses.len() > 0 {
        let mut s = "Suas motivações/necessidades concretas: ".to_string();
        s.append(juntar(npc.interesses.as_slice(), "; ").as_str());
        s.append(".");
        partes.push(s);
    }
    let ghost p2 = p1 + parte_interesses(npc@);
    assert(textos(partes@) =~= p2);
    partes.push(escrever_cena(cena));
    let ghost p3 = p2 + seq![parte_cena(cena@)];
    assert(textos(partes@) =~= p3);
    match escrever_emocional(memoria, eixos) {
        Some(s) => {
            partes.push(s);
        },
        None => {},
    }
    let ghost p4 = p3 + parte_emocional(memoria@.estado_emocional, *eixos);
    assert(textos(partes@) =~= p4);
    if memoria.resumo.as_str().unicode_len() > 0 {
        let mut s = "Resumo do que já aconteceu entre vocês: ".to_string();
        s.append(memoria.resumo.as_str());
        partes.push(s);
    }
    let ghost p5 = p4 + parte_resumo(memoria@.resumo);
    assert(textos(partes@) =~= p5);
    match resultado_dados {
        Some(r) => {
            partes.push(escrever_dados(r));
        },
        None => {},
    }
    let ghost p6 = p5 + parte_dados(dados_vistos(resultado_dados));
    assert(textos(partes@) =~= p6);
    partes.push(CONSISTENCIA.to_string());
    partes.push(FORMATO.to_string());
    let ghost p7 = p6 + seq![CONSISTENCIA@, FORMATO@];
    assert(textos(partes@) =~= p7);
    match evitar_frase {
        Some(frase) => {
            let mut s =
                "IMPORTANTE: você (ou outro personagem por aqui) já disse algo muito parecido com isto recentemente — não repita: \"".to_string();
            s.append(frase);
            s.append("\". Responda de um jeito genuinamente diferente.");
            partes.push(s);
        },
        None => {},
    }
    let ghost evitada: Option<Seq<char>> = match evitar_frase {
        Some(f) => Some(f@),
        None => None,
    };
    assert(textos(partes@) =~= p7 + parte_repeticao(evitada));
    juntar(partes.as_slice(), "\n\n")
}

/// Uma frase a evitar só acrescenta o aviso dela ao fim das instruções.
pub proof fn lei_frase_a_evitar_so_acrescenta(
    npc: NpcView,
    cena: CenaView,
    memoria: MemoriaView,
    eixos: EixosEscritos,
    resultado: Option<ResultadoDados>,
    frase: Seq<char>,
)
    ensures
        prompt_do_agente(npc, cena, memoria, eixos, resultado, Some(frase)) == prompt_do_agente(
            npc,
            cena,
            memoria,
            eixos,
            resultado,
            None,
        ) + "\n\n"@ + parte_repeticao(Some(frase))[0],
{
    let com = partes_do_agente(npc, cena, memoria, eixos, resultado, Some(frase));
    let sem = partes_do_agente(npc, cena, memoria, eixos, resultado, None);
    assert(com.drop_last() =~= sem);
    assert(com.last() == parte_repeticao(Some(frase))[0]);
}

// ---------------------------------------------------------------------------
// A fala
// ---------------------------------------------------------------------------

/// O que o NPC faz quando o modelo não responde.
pub open spec fn hesitacao(npc_nome: Seq<char>) -> Seq<char> {
    "*"@ + npc_nome + " hesita, sem saber o que responder.*"@
}

/// O que se faz com a fala gerada: sem resposta do modelo o NPC hesita, e isso
/// não é revisado; uma resposta vai ao Guardrail de Saída.
pub fn gerar_e_revisar(
    guardrail: &GuardrailSaida,
    npc: &Npc,
    bruto: Option<String>,
    resultado_dados: Option<&ResultadoDados>,
) -> (p: Passo)
    ensures
        p@ == (match bruto {
            None => PassoView::Pronto(hesitacao(npc@.nome)),
            Some(t) => PassoView::Perguntar(
                RevisaoView {
                    system: prompt_do_revisor(dados_vistos(resultado_dados)),
                    texto: t@,
                    tentativa: 1,
                },
            ),
        }),
{
    match bruto {
        None => {
            let mut r = "*".to_string();
            r.append(npc.nome.as_str());
            r.append(" hesita, sem saber o que responder.*");
            Passo::Pronto(r)
        },
        Some(t) => Passo::Perguntar(guardrail.revisar(t.as_str(), resultado_dados)),
    }
}

/// O que se faz com uma fala revisada: dizê-la, ou gerar outra que não repita
/// a frase.
#[derive(Debug)]
pub enum Dialogo {
    Dizer(String),
    Refazer(String),
}

/// Uma primeira fala que repete uma frase recente pede uma nova geração; a
/// segunda é dita de qualquer modo, repita ou não.
pub fn dialogar(texto: String, segunda: bool, frase_repetida: Option<String>) -> (d: Dialogo)
    ensures
        d == (match frase_repetida {
            Some(frase) => if segunda {
                Dialogo::Dizer(texto)
            } else {
                Dialogo::Refazer(frase)
            },
            None => Dialogo::Dizer(texto),
        }),
{
    if segunda {
        Dialogo::Dizer(texto)
    } else {
        match frase_repetida {
            Some(frase) => Dialogo::Refazer(frase),
            None => Dialogo::Dizer(texto),
        }
    }
}

// ---------------------------------------------------------------------------
// A memória
// ---------------------------------------------------------------------------

/// Chegou a hora de consolidar.
pub open spec fn hora_de_consolidar(m: MemoriaView) -> bool {
    m.turnos_desde_consolidacao >= TURNOS_POR_CONSOLIDACAO
}

/// A memória depois de consolidada, se a consolidação deu em alguma coisa: o que
/// saiu da janela já está no resumo.
pub open spec fn consolidada(
    m: MemoriaView,
    resultado: Option<(Seq<char>, EstadoEmocionalView)>,
) -> MemoriaView {
    match resultado {
        Some(r) => MemoriaView {
            saidas: Seq::empty(),
            resumo: r.0,
            estado_emocional: r.1,
            turnos_desde_consolidacao: 0,
            ..m
        },
        None => m,
    }
}

/// A memória depois de uma interação: a troca entra, e se é hora a memória é
/// consolidada.
pub open spec fn memoria_apos(
    m: MemoriaView,
    entrada: Seq<char>,
    texto: Seq<char>,
    resultado: Option<(Seq<char>, EstadoEmocionalView)>,
) -> MemoriaView {
    let t = com_troca(m, entrada, texto);
    if hora_de_consolidar(t) {
        consolidada(t, resultado)
    } else {
        t
    }
}

/// O que um [`ResultadoConsolidacao`] diz.
pub open spec fn resultado_visto(r: Option<ResultadoConsolidacao>) -> Option<
    (Seq<char>, EstadoEmocionalView),
> {
    match r {
        Some(r) => Some((r.resumo@, r.estado_emocional@)),
        None => None,
    }
}

/// As trocas que esperam a consolidação e, depois delas, as da janela.
fn trocas_a_consolidar(saidas: &Vec<(String, String)>, ctx: &Vec<(String, String)>) -> (r: Vec<
    (String, String),
>)
    ensures
        trocas(r@) == trocas(saidas@) + trocas(ctx@),
{
    let ghost todas = trocas(saidas@) + trocas(ctx@);
    let mut r: Vec<(String, String)> = Vec::new();
    let mut i: usize = 0;
    assert(trocas(r@) =~= todas.take(0));
    while i < saidas.len()
        invariant
            i <= saidas@.len(),
            todas == trocas(saidas@) + trocas(ctx@),
            trocas(r@) == todas.take(i as int),
        decreases saidas@.len() - i,
    {
        let ghost antes = r@;
        r.push((saidas[i].0.clone(), saidas[i].1.clone()));
        assert(trocas(r@) =~= trocas(antes).push(todas[i as int]));
        assert(todas.take(i + 1) =~= todas.take(i as int).push(todas[i as int]));
        i += 1;
    }
    let ghost base = saidas@.len() as int;
    let mut j: usize = 0;
    while j < ctx.len()
        invariant
            j <= ctx@.len(),
            base == saidas@.len(),
            todas == trocas(saidas@) + trocas(ctx@),
            trocas(r@) == todas.take(base + j),
        decreases ctx@.len() - j,
    {
        let ghost antes = r@;
        r.push((ctx[j].0.clone(), ctx[j].1.clone()));
        assert(trocas(r@) =~= trocas(antes).push(todas[base + j]));
        assert(todas.take(base + j + 1) =~= todas.take(base + j).push(todas[base + j]));
        j += 1;
    }
    assert(todas.take(base + j) =~= todas);
    r
}

/// Registra a interação na memória. Devolve a consulta que a consolida quando
/// é hora, com tudo o que saiu da janela desde a última consolidação e a própria
/// janela; sem ela a memória está pronta para ser gravada.
pub fn processar_interacao(
    memoria: &mut MemoriaNpc,
    npc: &Npc,
    entrada: &str,
    texto: &str,
) -> (consulta: Option<Pedido>)
    requires
        old(memoria).turnos_desde_consolidacao < u32::MAX,
    ensures
        final(memoria)@ == com_troca(old(memoria)@, entrada@, texto@),
        match consulta {
            Some(p) => hora_de_consolidar(final(memoria)@) && p.system@ == SYSTEM_PROMPT@
                && p.user@ == entrada_da_consolidacao(
                npc@.nome,
                final(memoria)@.resumo,
                final(memoria)@.saidas + final(memoria)@.ctx,
            ),
            None => !hora_de_consolidar(final(memoria)@),
        },
{
    registrar_troca(memoria, entrada.to_string(), texto.to_string());
    if memoria.turnos_desde_consolidacao >= TURNOS_POR_CONSOLIDACAO {
        let recentes = trocas_a_consolidar(&memoria.saidas, &memoria.ctx);
        Some(
            pedido_de_consolidacao(
                npc.nome.as_str(),
                memoria.resumo.as_str(),
                recentes.as_slice(),
            ),
        )
    } else {
        None
    }
}

/// Aplica o resultado de uma consolidação. Sem resultado a memória fica como
/// está, e a próxima interação tenta de novo.
pub fn aplicar_consolidacao(memoria: &mut MemoriaNpc, resultado: Option<ResultadoConsolidacao>)
    ensures
        final(memoria)@ == consolidada(old(memoria)@, resultado_visto(resultado)),
{
    match resultado {
        Some(r) => {
            memoria.saidas = Vec::new();
            assert(memoria@.saidas =~= Seq::<(Seq<char>, Seq<char>)>::empty());
            memoria.resumo = r.resumo;
            memoria.estado_emocional = r.estado_emocional;
            memoria.turnos_desde_consolidacao = 0;
        },
        None => {},
    }
}

/// Uma memória que consolida sempre que é hora nunca passa do prazo: o contador
/// fica abaixo de cinco entre uma interação e outra. A janela fica com a última
/// troca e no máximo três.
pub proof fn lei_memoria_em_dia(
    m: MemoriaView,
    entrada: Seq<char>,
    texto: Seq<char>,
    resultado: (Seq<char>, EstadoEmocionalView),
)
    requires
        m.turnos_desde_consolidacao < TURNOS_POR_CONSOLIDACAO,
    ensures
        memoria_apos(m, entrada, texto, Some(resultado)).turnos_desde_consolidacao
            < TURNOS_POR_CONSOLIDACAO,
        memoria_apos(m, entrada, texto, Some(resultado)).ctx.last() == (entrada, texto),
        memoria_apos(m, entrada, texto, Some(resultado)).ctx.len()
            <= crate::db::MAX_TROCAS_MEMORIA,
{
    crate::db::lei_janela_limitada(m, entrada, texto);
}

/// Toda troca que sai da janela chega a uma consolidação: o que espera, seguido
/// da janela, só cresce no fim, e é isso que a consulta recebe; só uma
/// consolidação que dá em alguma coisa para de guardar o que esperava, e nenhuma
/// mexe na janela.
pub proof fn lei_saidas_sao_consolidadas(
    m: MemoriaView,
    entrada: Seq<char>,
    texto: Seq<char>,
    resultado: (Seq<char>, EstadoEmocionalView),
)
    ensures
        ({
            let t = com_troca(m, entrada, texto);
            let sem = memoria_apos(m, entrada, texto, None);
            let com = memoria_apos(m, entrada, texto, Some(resultado));
            &&& t.saidas + t.ctx == (m.saidas + m.ctx).push((entrada, texto))
            &&& sem.saidas + sem.ctx == (m.saidas + m.ctx).push((entrada, texto))
            &&& com.ctx == t.ctx
            &&& hora_de_consolidar(t) ==> com.saidas.len() == 0
            &&& !hora_de_consolidar(t) ==> com.saidas + com.ctx == (m.saidas + m.ctx).push(
                (entrada, texto),
            )
        }),
{
    crate::db::lei_nenhuma_troca_se_perde(m, entrada, texto);
}

/// Uma consolidação que não deu em nada não perde nada: resumo e estado ficam,
/// e continua sendo hora de consolidar.
pub proof fn lei_consolidacao_perdida(m: MemoriaView, entrada: Seq<char>, texto: Seq<char>)
    requires
        hora_de_consolidar(m),
        m.turnos_desde_consolidacao < u32::MAX,
    ensures
        hora_de_consolidar(memoria_apos(m, entrada, texto, None)),
        memoria_apos(m, entrada, texto, None).resumo == m.resumo,
        memoria_apos(m, entrada, texto, None).estado_emocional == m.estado_emocional,
{
}

// ---------------------------------------------------------------------------
// Leis da consolidação e das instruções
// ---------------------------------------------------------------------------

/// A cada cinco turnos é hora de consolidar, não antes. Uma consolidação que deu
/// em alguma coisa troca o resumo e o estado pelos novos, zera o contador e esvazia
/// a espera; a janela fica como a troca a deixou. Fora de hora, ou sem resultado,
/// só a troca conta.
pub proof fn lei_quando_consolida(
    m: MemoriaView,
    entrada: Seq<char>,
    texto: Seq<char>,
    resultado: Option<(Seq<char>, EstadoEmocionalView)>,
)
    requires
        m.turnos_desde_consolidacao < u32::MAX,
    ensures
        ({
            let t = com_troca(m, entrada, texto);
            let r = memoria_apos(m, entrada, texto, resultado);
            let consolidou = m.turnos_desde_consolidacao + 1 >= 5 && resultado is Some;
            &&& hora_de_consolidar(t) <==> m.turnos_desde_consolidacao + 1 >= 5
            &&& r.ctx == t.ctx
            &&& consolidou ==> {
                &&& r.resumo == (resultado->0).0
                &&& r.estado_emocional == (resultado->0).1
                &&& r.turnos_desde_consolidacao == 0
                &&& r.saidas.len() == 0
            }
            &&& !consolidou ==> r == t && r.resumo == m.resumo && r.estado_emocional
                == m.estado_emocional && r.turnos_desde_consolidacao
                == m.turnos_desde_consolidacao + 1
        }),
{
}

/// Um texto com `antes` e depois `t` no começo tem `t`.
proof fn lema_tem_prefixo(s: Seq<char>, antes: Seq<char>, t: Seq<char>)
    requires
        (antes + t).is_prefix_of(s),
    ensures
        tem_trecho(s, t),
{
    let depois = s.skip((antes + t).len() as int);
    lema_tem_meio(antes, t, depois);
    assert(antes + t + depois =~= s);
}

/// As instruções de um agente dizem sempre quem ele é, onde está, que não pode
/// contradizer os fatos da cena, e como falar.
pub proof fn lei_instrucoes_do_agente(
    npc: NpcView,
    cena: CenaView,
    memoria: MemoriaView,
    eixos: EixosEscritos,
    resultado: Option<ResultadoDados>,
    evitar_frase: Option<Seq<char>>,
)
    ensures
        ({
            let s = prompt_do_agente(npc, cena, memoria, eixos, resultado, evitar_frase);
            &&& tem_trecho(s, npc.nome)
            &&& tem_trecho(s, npc.atitude_com_jogador)
            &&& tem_trecho(s, npc.descricao)
            &&& tem_trecho(s, cena.nome)
            &&& tem_trecho(s, cena.descricao)
            &&& tem_trecho(s, CONSISTENCIA@)
            &&& tem_trecho(s, FORMATO@)
            &&& forall|i: int|
                0 <= i < cena.fatos_estabelecidos.len() ==> tem_trecho(
                    s,
                    #[trigger] cena.fatos_estabelecidos[i],
                )
        }),
{
    let partes = partes_do_agente(npc, cena, memoria, eixos, resultado, evitar_frase);
    let s = prompt_do_agente(npc, cena, memoria, eixos, resultado, evitar_frase);
    let id = parte_identidade(npc);
    let a = "Você é "@;
    let b = a + npc.nome
        + ", um NPC num RPG de fantasia medieval. Sua atitude de base com o jogador é: "@;
    let c = b + npc.atitude_com_jogador + "."@;
    assert(partes[0] == id);
    lei_juntado_tem_as_partes(partes, "\n\n"@, 0);
    lema_tem_prefixo(id, a, npc.nome);
    lema_tem_trecho_de_trecho(s, id, npc.nome);
    lema_tem_prefixo(id, b, npc.atitude_com_jogador);
    lema_tem_trecho_de_trecho(s, id, npc.atitude_com_jogador);
    if npc.descricao.len() == 0 {
        lema_tem_prefixo(id, c, npc.descricao);
    } else {
        assert((c + " "@ + npc.descricao) =~= id);
        lema_tem_prefixo(id, c + " "@, npc.descricao);
    }
    lema_tem_trecho_de_trecho(s, id, npc.descricao);

    let k = 1 + parte_interesses(npc).len();
    let lugar = parte_cena(cena);
    assert(partes[k as int] == lugar);
    lei_juntado_tem_as_partes(partes, "\n\n"@, k as int);
    let d = "Você está em "@;
    let e = d + cena.nome + " ("@;
    let f = e + cena.descricao
        + "). Fatos estabelecidos sobre este lugar — você NÃO pode contradizer ou inventar por cima deles: "@;
    lema_tem_prefixo(lugar, d, cena.nome);
    lema_tem_trecho_de_trecho(s, lugar, cena.nome);
    lema_tem_prefixo(lugar, e, cena.descricao);
    lema_tem_trecho_de_trecho(s, lugar, cena.descricao);
    assert forall|i: int| 0 <= i < cena.fatos_estabelecidos.len() implies tem_trecho(
        s,
        #[trigger] cena.fatos_estabelecidos[i],
    ) by {
        let fatos = juntado(cena.fatos_estabelecidos, "; "@);
        lema_tem_prefixo(lugar, f, fatos);
        lei_juntado_tem_as_partes(cena.fatos_estabelecidos, "; "@, i);
        lema_tem_trecho_de_trecho(lugar, fatos, cena.fatos_estabelecidos[i]);
        lema_tem_trecho_de_trecho(s, lugar, cena.fatos_estabelecidos[i]);
    }

    let n = partes.len() - parte_repeticao(evitar_frase).len();
    assert(partes[n - 2] == CONSISTENCIA@);
    assert(partes[n - 1] == FORMATO@);
    lei_juntado_tem_as_partes(partes, "\n\n"@, n - 2);
    lei_juntado_tem_as_partes(partes, "\n\n"@, n - 1);
}

/// As instruções dizem o resumo do que já houve, se há um; o resultado do teste do
/// turno, se houve um; e o que o NPC quer, se quer alguma coisa.
pub proof fn lei_instrucoes_dizem_o_que_ha(
    npc: NpcView,
    cena: CenaView,
    memoria: MemoriaView,
    eixos: EixosEscritos,
    resultado: Option<ResultadoDados>,
    evitar_frase: Option<Seq<char>>,
)
    ensures
        ({
            let s = prompt_do_agente(npc, cena, memoria, eixos, resultado, evitar_frase);
            &&& memoria.resumo.len() > 0 ==> tem_trecho(
                s,
                "Resumo do que já aconteceu entre vocês: "@ + memoria.resumo,
            )
            &&& resultado matches Some(r) ==> tem_trecho(
                s,
                "rolagem "@ + decimal(r.rolagem as int) + " contra dificuldade "@ + decimal(
                    r.dificuldade as int,
                ) + " → "@ + (if r.sucesso {
                    "SUCESSO"@
                } else {
                    "FRACASSO"@
                }),
            )
            &&& forall|i: int|
                0 <= i < npc.interesses.len() ==> tem_trecho(s, #[trigger] npc.interesses[i])
        }),
{
    let partes = partes_do_agente(npc, cena, memoria, eixos, resultado, evitar_frase);
    let s = prompt_do_agente(npc, cena, memoria, eixos, resultado, evitar_frase);
    let k = 2 + parte_interesses(npc).len() + parte_emocional(
        memoria.estado_emocional,
        eixos,
    ).len();
    if memoria.resumo.len() > 0 {
        assert(partes[k as int] == parte_resumo(memoria.resumo)[0]);
        lei_juntado_tem_as_partes(partes, "\n\n"@, k as int);
    }
    match resultado {
        Some(r) => {
            let j = k + parte_resumo(memoria.resumo).len();
            let p = parte_dados(resultado)[0];
            assert(partes[j as int] == p);
            lei_juntado_tem_as_partes(partes, "\n\n"@, j as int);
            let palavra = if r.sucesso {
                "SUCESSO"@
            } else {
                "FRACASSO"@
            };
            let dito = "rolagem "@ + decimal(r.rolagem as int) + " contra dificuldade "@ + decimal(
                r.dificuldade as int,
            ) + " → "@ + palavra;
            let cabeca =
                "O jogador tentou uma ação que exigiu um teste de dados. Resultado JÁ DECIDIDO, você não pode contradizer: "@;
            reveal_strlit(
                "O jogador tentou uma ação que exigiu um teste de dados. Resultado JÁ DECIDIDO, você não pode contradizer: rolagem ",
            );
            reveal_strlit(
                "O jogador tentou uma ação que exigiu um teste de dados. Resultado JÁ DECIDIDO, você não pode contradizer: ",
            );
            reveal_strlit("rolagem ");
            assert(cabeca + "rolagem "@
                =~= "O jogador tentou uma ação que exigiu um teste de dados. Resultado JÁ DECIDIDO, você não pode contradizer: rolagem "@);
            assert(cabeca + dito =~= cabeca + "rolagem "@ + decimal(r.rolagem as int)
                + " contra dificuldade "@ + decimal(r.dificuldade as int) + " → "@ + palavra);
            lema_tem_prefixo(p, cabeca, dito);
            lema_tem_trecho_de_trecho(s, p, dito);
        },
        None => {},
    }
    assert forall|i: int| 0 <= i < npc.interesses.len() implies tem_trecho(
        s,
        #[trigger] npc.interesses[i],
    ) by {
        let p = parte_interesses(npc)[0];
        let lista = juntado(npc.interesses, "; "@);
        assert(partes[1] == p);
        lei_juntado_tem_as_partes(partes, "\n\n"@, 1);
        lema_tem_meio("Suas motivações/necessidades concretas: "@, lista, "."@);
        lei_juntado_tem_as_partes(npc.interesses, "; "@, i);
        lema_tem_trecho_de_trecho(p, lista, npc.interesses[i]);
        lema_tem_trecho_de_trecho(s, p, npc.interesses[i]);
    }
}

/// O estado emocional entra nas instruções quando prazer, ativação ou dominância
/// passam de um décimo, com os seis eixos; senão os eixos não mudam nada.
pub proof fn lei_emocao_nas_instrucoes(
    npc: NpcView,
    cena: CenaView,
    memoria: MemoriaView,
    eixos: EixosEscritos,
    outros: EixosEscritos,
    resultado: Option<ResultadoDados>,
    evitar_frase: Option<Seq<char>>,
)
    ensures
        ({
            let e = memoria.estado_emocional;
            let s = prompt_do_agente(npc, cena, memoria, eixos, resultado, evitar_frase);
            let pesa = e.prazer.relevante() || e.ativacao.relevante() || e.dominancia.relevante();
            &&& pesa ==> tem_trecho(
                s,
                "prazer="@ + eixos.prazer@ + ", ativação="@ + eixos.ativacao@ + ", dominância="@
                    + eixos.dominancia@ + ", confiança="@ + eixos.confianca@ + ", respeito="@
                    + eixos.respeito@ + ", afinidade="@ + eixos.afinidade@ + ". "@,
            )
            &&& !pesa ==> s == prompt_do_agente(
                npc,
                cena,
                memoria,
                outros,
                resultado,
                evitar_frase,
            )
        }),
{
    let e = memoria.estado_emocional;
    let s = prompt_do_agente(npc, cena, memoria, eixos, resultado, evitar_frase);
    let partes = partes_do_agente(npc, cena, memoria, eixos, resultado, evitar_frase);
    if e.prazer.relevante() || e.ativacao.relevante() || e.dominancia.relevante() {
        let k = 2 + parte_interesses(npc).len();
        let p = parte_emocional(e, eixos)[0];
        assert(partes[k as int] == p);
        lei_juntado_tem_as_partes(partes, "\n\n"@, k as int);
        let dito = "prazer="@ + eixos.prazer@ + ", ativação="@ + eixos.ativacao@
            + ", dominância="@ + eixos.dominancia@ + ", confiança="@ + eixos.confianca@
            + ", respeito="@ + eixos.respeito@ + ", afinidade="@ + eixos.afinidade@ + ". "@;
        let cabeca = "Seu estado emocional atual em relação a este jogador: "@;
        reveal_strlit("Seu estado emocional atual em relação a este jogador: prazer=");
        reveal_strlit("Seu estado emocional atual em relação a este jogador: ");
        reveal_strlit("prazer=");
        assert(cabeca + "prazer="@
            =~= "Seu estado emocional atual em relação a este jogador: prazer="@);
        assert(cabeca + dito =~= cabeca + "prazer="@ + eixos.prazer@ + ", ativação="@
            + eixos.ativacao@ + ", dominância="@ + eixos.dominancia@ + ", confiança="@
            + eixos.confianca@ + ", respeito="@ + eixos.respeito@ + ", afinidade="@
            + eixos.afinidade@ + ". "@);
        lema_tem_prefixo(p, cabeca, dito);
        lema_tem_trecho_de_trecho(s, p, dito);
    }
}

} // verus!
