//! Busca de regras: fundamenta a narração em texto de regra real. Os vetores
//! dos trechos são números de precisão simples guardados pelos seus bits; a
//! busca é por força bruta, em memória.

use crate::state::Eixo;
use crate::texto::{juntado, juntar, textos};
use vstd::prelude::*;

verus! {

/// Um trecho de regra.
#[derive(Debug)]
pub struct RegraChunk {
    pub categoria: String,
    pub titulo: String,
    pub texto: String,
}

/// O que um [`RegraChunk`] diz.
pub struct RegraView {
    pub categoria: Seq<char>,
    pub titulo: Seq<char>,
    pub texto: Seq<char>,
}

impl View for RegraChunk {
    type V = RegraView;

    open spec fn view(&self) -> RegraView {
        RegraView { categoria: self.categoria@, titulo: self.titulo@, texto: self.texto@ }
    }
}

impl Clone for RegraChunk {
    fn clone(&self) -> (r: RegraChunk)
        ensures
            r@ == self@,
    {
        RegraChunk {
            categoria: self.categoria.clone(),
            titulo: self.titulo.clone(),
            texto: self.texto.clone(),
        }
    }
}

/// O que uma lista de trechos diz.
pub open spec fn regras(cs: Seq<RegraChunk>) -> Seq<RegraView> {
    cs.map_values(|c: RegraChunk| c@)
}

/// A semelhança de um trecho com a consulta: um número de precisão simples.
pub type Pontuacao = Eixo;

// ---------------------------------------------------------------------------
// Vetores em bytes
// ---------------------------------------------------------------------------

/// O número de 32 bits que quatro bytes escrevem, o menos significativo
/// primeiro.
pub open spec fn numero_le(b0: u8, b1: u8, b2: u8, b3: u8) -> int {
    b0 + 0x100 * b1 + 0x1_0000 * b2 + 0x100_0000 * b3
}

/// O byte `k` de um número de 32 bits.
pub open spec fn byte_le(n: u32, k: int) -> u8 {
    if k == 0 {
        (n % 0x100) as u8
    } else if k == 1 {
        (n / 0x100 % 0x100) as u8
    } else if k == 2 {
        (n / 0x1_0000 % 0x100) as u8
    } else {
        (n / 0x100_0000) as u8
    }
}

/// O vetor que uma sequência de bytes escreve: um número a cada quatro bytes;
/// os que sobram no fim não contam.
pub open spec fn decodificado(bytes: Seq<u8>) -> Seq<u32> {
    Seq::new(
        bytes.len() / 4,
        |i: int|
            numero_le(bytes[4 * i], bytes[4 * i + 1], bytes[4 * i + 2], bytes[4 * i + 3]) as u32,
    )
}

/// Os bytes de um vetor, quatro por número.
pub open spec fn codificado(v: Seq<u32>) -> Seq<u8> {
    Seq::new(4 * v.len(), |j: int| byte_le(v[j / 4], j % 4))
}

/// Lê um vetor dos seus bytes.
pub fn decodificar_embedding(bytes: &[u8]) -> (r: Vec<u32>)
    ensures
        r@ == decodificado(bytes@),
{
    let total: usize = bytes.len();
    let n: usize = total / 4;
    let mut r: Vec<u32> = Vec::new();
    let mut i: usize = 0;
    while i < n
        invariant
            i <= n,
            n == total / 4,
            total == bytes@.len(),
            r@.len() == i,
            forall|j: int| 0 <= j < i ==> r@[j] == decodificado(bytes@)[j],
        decreases n - i,
    {
        let b0: u32 = bytes[4 * i] as u32;
        let b1: u32 = bytes[4 * i + 1] as u32;
        let b2: u32 = bytes[4 * i + 2] as u32;
        let b3: u32 = bytes[4 * i + 3] as u32;
        r.push(b0 + 0x100 * b1 + 0x1_0000 * b2 + 0x100_0000 * b3);
        i += 1;
    }
    assert(r@ =~= decodificado(bytes@));
    r
}

/// Escreve um vetor em bytes.
pub fn codificar_embedding(v: &[u32]) -> (r: Vec<u8>)
    ensures
        r@ == codificado(v@),
{
    let mut r: Vec<u8> = Vec::new();
    let mut i: usize = 0;
    while i < v.len()
        invariant
            i <= v@.len(),
            r@.len() == 4 * i,
            forall|j: int| 0 <= j < 4 * i ==> r@[j] == byte_le(v@[j / 4], j % 4),
        decreases v@.len() - i,
    {
        let n: u32 = v[i];
        r.push((n % 0x100) as u8);
        r.push((n / 0x100 % 0x100) as u8);
        r.push((n / 0x1_0000 % 0x100) as u8);
        r.push((n / 0x100_0000) as u8);
        i += 1;
    }
    assert(r@ =~= codificado(v@));
    r
}

/// Um vetor escrito em bytes é lido de volta como o mesmo vetor.
pub proof fn lei_embedding_ida_e_volta(v: Seq<u32>)
    ensures
        decodificado(codificado(v)) == v,
{
    let b = codificado(v);
    assert forall|i: int| 0 <= i < v.len() implies decodificado(b)[i] == v[i] by {
        let n = v[i];
        assert((4 * i) / 4 == i && (4 * i) % 4 == 0);
        assert((4 * i + 1) / 4 == i && (4 * i + 1) % 4 == 1);
        assert((4 * i + 2) / 4 == i && (4 * i + 2) % 4 == 2);
        assert((4 * i + 3) / 4 == i && (4 * i + 3) % 4 == 3);
        assert(numero_le(byte_le(n, 0), byte_le(n, 1), byte_le(n, 2), byte_le(n, 3)) == n);
    }
    assert(decodificado(b) =~= v);
}

proof fn lema_bytes_do_numero(b0: u8, b1: u8, b2: u8, b3: u8)
    ensures
        0 <= numero_le(b0, b1, b2, b3) <= u32::MAX,
        byte_le(numero_le(b0, b1, b2, b3) as u32, 0) == b0,
        byte_le(numero_le(b0, b1, b2, b3) as u32, 1) == b1,
        byte_le(numero_le(b0, b1, b2, b3) as u32, 2) == b2,
        byte_le(numero_le(b0, b1, b2, b3) as u32, 3) == b3,
{
    let n = numero_le(b0, b1, b2, b3);
    assert(n / 0x100 == b1 + 0x100 * b2 + 0x1_0000 * b3);
    assert(n / 0x1_0000 == b2 + 0x100 * b3);
    assert(n / 0x100_0000 == b3);
}

/// Bytes em quantidade múltipla de quatro, lidos e escritos de volta, são os
/// mesmos bytes.
pub proof fn lei_embedding_volta_e_ida(b: Seq<u8>)
    requires
        b.len() % 4 == 0,
    ensures
        codificado(decodificado(b)) == b,
{
    let v = decodificado(b);
    assert forall|j: int| 0 <= j < b.len() implies codificado(v)[j] == b[j] by {
        let i = j / 4;
        lema_bytes_do_numero(b[4 * i], b[4 * i + 1], b[4 * i + 2], b[4 * i + 3]);
        assert(0 <= i < v.len());
        assert(j == 4 * i + j % 4);
    }
    assert(codificado(v) =~= b);
}

// ---------------------------------------------------------------------------
// Ordem das pontuações
// ---------------------------------------------------------------------------

/// `a` é um número maior que `b`. O que não é número não é maior nem menor.
pub open spec fn maior(a: Pontuacao, b: Pontuacao) -> bool {
    !a.nao_numero() && !b.nao_numero() && a.ordem() > b.ordem()
}

/// As pontuações se ordenam: são todas números, ou não há duas diferentes.
pub open spec fn ordenaveis(ps: Seq<Pontuacao>) -> bool {
    ||| forall|i: int| 0 <= i < ps.len() ==> !(#[trigger] ps[i]).nao_numero()
    ||| forall|i: int, j: int|
        0 <= i < ps.len() && 0 <= j < ps.len() ==> !maior(#[trigger] ps[i], #[trigger] ps[j])
}

/// A ordem `r` com `i` posto depois de tudo que não pontua menos que ele.
pub open spec fn com_indice(r: Seq<int>, ps: Seq<Pontuacao>, i: int) -> Seq<int>
    decreases r.len(),
{
    if r.len() > 0 && maior(ps[i], ps[r.last()]) {
        com_indice(r.drop_last(), ps, i).push(r.last())
    } else {
        r.push(i)
    }
}

/// Os índices das `n` primeiras pontuações, da maior para a menor; entre iguais
/// vale a ordem de entrada.
pub open spec fn ranking(ps: Seq<Pontuacao>, n: int) -> Seq<int>
    decreases n,
{
    if n <= 0 {
        Seq::empty()
    } else {
        com_indice(ranking(ps, n - 1), ps, n - 1)
    }
}

/// O índice `a` vem antes do `b`: pontua mais, ou não pontua menos e já vinha
/// antes.
pub open spec fn vem_antes(ps: Seq<Pontuacao>, a: int, b: int) -> bool {
    maior(ps[a], ps[b]) || (!maior(ps[b], ps[a]) && a < b)
}

/// `r` tem cada índice abaixo de `n` uma vez, cada um antes dos que vêm depois
/// dele.
pub open spec fn em_ordem(r: Seq<int>, ps: Seq<Pontuacao>, n: int) -> bool {
    &&& r.len() == n
    &&& forall|a: int| 0 <= a < r.len() ==> 0 <= #[trigger] r[a] < n
    &&& forall|a: int, b: int|
        0 <= a < b < r.len() ==> vem_antes(ps, #[trigger] r[a], #[trigger] r[b])
}

proof fn lema_com_indice(r: Seq<int>, ps: Seq<Pontuacao>, i: int, n: int)
    requires
        ordenaveis(ps),
        0 <= i < ps.len(),
        n <= i,
        forall|a: int| 0 <= a < r.len() ==> 0 <= #[trigger] r[a] < n,
        forall|a: int, b: int|
            0 <= a < b < r.len() ==> vem_antes(ps, #[trigger] r[a], #[trigger] r[b]),
    ensures
        com_indice(r, ps, i).len() == r.len() + 1,
        forall|a: int|
            0 <= a <= r.len() ==> (#[trigger] com_indice(r, ps, i)[a] == i || exists|k: int|
                0 <= k < r.len() && r[k] == com_indice(r, ps, i)[a]),
        forall|a: int, b: int|
            0 <= a < b <= r.len() ==> vem_antes(
                ps,
                #[trigger] com_indice(r, ps, i)[a],
                #[trigger] com_indice(r, ps, i)[b],
            ),
    decreases r.len(),
{
    let novo = com_indice(r, ps, i);
    if r.len() > 0 && maior(ps[i], ps[r.last()]) {
        let s = r.drop_last();
        lema_com_indice(s, ps, i, n);
        let t = com_indice(s, ps, i);
        assert forall|a: int| 0 <= a <= r.len() implies (#[trigger] novo[a] == i || exists|k: int|
            0 <= k < r.len() && r[k] == novo[a]) by {
            if a < r.len() {
                assert(novo[a] == t[a]);
                if t[a] != i {
                    let k = choose|k: int| 0 <= k < s.len() && s[k] == t[a];
                    assert(r[k] == novo[a]);
                }
            } else {
                assert(r[r.len() - 1] == novo[a]);
            }
        }
        assert forall|a: int, b: int| 0 <= a < b <= r.len() implies vem_antes(
            ps,
            #[trigger] novo[a],
            #[trigger] novo[b],
        ) by {
            assert(novo[a] == t[a]);
            if b < r.len() {
                assert(novo[b] == t[b]);
            } else if t[a] != i {
                let k = choose|k: int| 0 <= k < s.len() && s[k] == t[a];
                assert(r[k] == t[a]);
                assert(r[r.len() - 1] == r.last());
                assert(vem_antes(ps, r[k], r[r.len() - 1]));
            }
        }
    } else {
        assert forall|a: int| 0 <= a <= r.len() implies (#[trigger] novo[a] == i || exists|k: int|
            0 <= k < r.len() && r[k] == novo[a]) by {
            if a < r.len() {
                assert(r[a] == novo[a]);
            }
        }
        assert forall|a: int, b: int| 0 <= a < b <= r.len() implies vem_antes(
            ps,
            #[trigger] novo[a],
            #[trigger] novo[b],
        ) by {
            assert(novo[a] == r[a]);
            if b < r.len() {
                assert(novo[b] == r[b]);
            } else {
                assert(novo[b] == i);
                assert(r[r.len() - 1] == r.last());
                if a < r.len() - 1 {
                    assert(vem_antes(ps, r[a], r[r.len() - 1]));
                }
                assert(0 <= r[a] < n);
                assert(!maior(ps[i], ps[r[a]]));
            }
        }
    }
}

/// O ranking tem cada índice uma vez, da maior pontuação para a menor, e entre
/// iguais na ordem de entrada.
pub proof fn lei_ranking(ps: Seq<Pontuacao>, n: int)
    requires
        0 <= n <= ps.len(),
        ordenaveis(ps),
    ensures
        em_ordem(ranking(ps, n), ps, n),
    decreases n,
{
    if n > 0 {
        lei_ranking(ps, n - 1);
        lema_com_indice(ranking(ps, n - 1), ps, n - 1, n - 1);
    }
}

proof fn lema_insercao(r: Seq<int>, ps: Seq<Pontuacao>, i: int, k: int)
    requires
        0 <= k <= r.len(),
        forall|t: int| k <= t < r.len() ==> maior(ps[i], ps[#[trigger] r[t]]),
        k > 0 ==> !maior(ps[i], ps[r[k - 1]]),
    ensures
        com_indice(r, ps, i) == r.insert(k, i),
    decreases r.len() - k,
{
    if k < r.len() {
        let s = r.drop_last();
        assert(maior(ps[i], ps[r[r.len() - 1]]));
        lema_insercao(s, ps, i, k);
        assert(r.insert(k, i) =~= s.insert(k, i).push(r.last()));
    } else {
        assert(r.insert(k, i) =~= r.push(i));
    }
}

/// Uma lista de índices, como inteiros.
pub open spec fn indices(v: Seq<usize>) -> Seq<int> {
    v.map_values(|i: usize| i as int)
}

fn pontua_mais(a: &Pontuacao, b: &Pontuacao) -> (r: bool)
    ensures
        r == maior(*a, *b),
{
    !a.eh_nao_numero() && !b.eh_nao_numero() && a.ordem_inteira() > b.ordem_inteira()
}

/// Se as pontuações se ordenam.
pub fn podem_ordenar(pontos: &[Pontuacao]) -> (r: bool)
    ensures
        r == ordenaveis(pontos@),
{
    let mut so_numeros = true;
    let mut i: usize = 0;
    while i < pontos.len()
        invariant
            i <= pontos@.len(),
            so_numeros == forall|a: int| 0 <= a < i ==> !(#[trigger] pontos@[a]).nao_numero(),
        decreases pontos@.len() - i,
    {
        if pontos[i].eh_nao_numero() {
            assert(pontos@[i as int].nao_numero());
            so_numeros = false;
        }
        i += 1;
    }
    if so_numeros {
        return true;
    }
    let mut i: usize = 0;
    while i < pontos.len()
        invariant
            i <= pontos@.len(),
            exists|a: int| 0 <= a < pontos@.len() && (#[trigger] pontos@[a]).nao_numero(),
            forall|a: int, b: int|
                0 <= a < i && 0 <= b < pontos@.len() ==> !maior(
                    #[trigger] pontos@[a],
                    #[trigger] pontos@[b],
                ),
        decreases pontos@.len() - i,
    {
        let mut j: usize = 0;
        while j < pontos.len()
            invariant
                i < pontos@.len(),
                j <= pontos@.len(),
                exists|a: int| 0 <= a < pontos@.len() && (#[trigger] pontos@[a]).nao_numero(),
                forall|b: int| 0 <= b < j ==> !maior(pontos@[i as int], #[trigger] pontos@[b]),
            decreases pontos@.len() - j,
        {
            if pontua_mais(&pontos[i], &pontos[j]) {
                return false;
            }
            j += 1;
        }
        i += 1;
    }
    true
}

/// Os índices das pontuações, da maior para a menor.
pub fn ordenar(pontos: &[Pontuacao]) -> (r: Vec<usize>)
    requires
        ordenaveis(pontos@),
    ensures
        indices(r@) == ranking(pontos@, pontos@.len() as int),
        em_ordem(indices(r@), pontos@, pontos@.len() as int),
{
    let mut r: Vec<usize> = Vec::new();
    let mut i: usize = 0;
    assert(indices(r@) =~= ranking(pontos@, 0));
    while i < pontos.len()
        invariant
            i <= pontos@.len(),
            ordenaveis(pontos@),
            indices(r@) == ranking(pontos@, i as int),
        decreases pontos@.len() - i,
    {
        proof {
            lei_ranking(pontos@, i as int);
            assert(r@.len() == indices(r@).len());
            assert forall|a: int| 0 <= a < r@.len() implies (#[trigger] r@[a]) < i by {
                assert(indices(r@)[a] == r@[a]);
            }
        }
        let mut k: usize = r.len();
        while k > 0 && pontua_mais(&pontos[i], &pontos[r[k - 1]])
            invariant
                k <= r@.len(),
                i < pontos@.len(),
                forall|a: int| 0 <= a < r@.len() ==> (#[trigger] r@[a]) < i,
                forall|t: int|
                    k <= t < r@.len() ==> maior(
                        pontos@[i as int],
                        pontos@[#[trigger] indices(r@)[t]],
                    ),
            decreases k,
        {
            k -= 1;
            assert(indices(r@)[k as int] == r@[k as int]);
        }
        let ghost antes = r@;
        r.insert(k, i);
        proof {
            if k > 0 {
                assert(indices(antes)[k - 1] == antes[k - 1]);
            }
            lema_insercao(indices(antes), pontos@, i as int, k as int);
            assert(indices(r@) =~= indices(antes).insert(k as int, i as int));
        }
        i += 1;
    }
    proof {
        lei_ranking(pontos@, pontos@.len() as int);
    }
    r
}

// ---------------------------------------------------------------------------
// O índice
// ---------------------------------------------------------------------------

/// Uma linha da tabela de regras.
#[derive(Debug)]
pub struct LinhaRegra {
    pub categoria: String,
    pub titulo: String,
    pub texto: String,
    pub embedding: Vec<u8>,
}

/// Os trechos de regra com os seus vetores, carregados uma vez.
#[derive(Debug)]
pub struct RagIndex {
    pub chunks: Vec<(RegraChunk, Vec<u32>)>,
}

/// O que um trecho indexado diz: a regra e o vetor.
pub open spec fn entradas(cs: Seq<(RegraChunk, Vec<u32>)>) -> Seq<(RegraView, Seq<u32>)> {
    cs.map_values(|c: (RegraChunk, Vec<u32>)| (c.0@, c.1@))
}

/// O que as linhas da tabela dizem.
pub open spec fn entradas_das_linhas(ls: Seq<LinhaRegra>) -> Seq<(RegraView, Seq<u32>)> {
    ls.map_values(
        |l: LinhaRegra|
            (
                RegraView { categoria: l.categoria@, titulo: l.titulo@, texto: l.texto@ },
                decodificado(l.embedding@),
            ),
    )
}

impl View for RagIndex {
    type V = Seq<(RegraView, Seq<u32>)>;

    open spec fn view(&self) -> Seq<(RegraView, Seq<u32>)> {
        entradas(self.chunks@)
    }
}

/// Carrega o índice, ou nada se a tabela está vazia: sem regras o jogo segue
/// sem esse contexto.
pub fn carregar(linhas: Vec<LinhaRegra>) -> (r: Option<RagIndex>)
    ensures
        match r {
            Some(x) => linhas@.len() > 0 && x@ == entradas_das_linhas(linhas@),
            None => linhas@.len() == 0,
        },
{
    if linhas.len() == 0 {
        return None;
    }
    let ghost todas = entradas_das_linhas(linhas@);
    let mut chunks: Vec<(RegraChunk, Vec<u32>)> = Vec::new();
    let mut i: usize = 0;
    while i < linhas.len()
        invariant
            i <= linhas@.len(),
            todas == entradas_das_linhas(linhas@),
            chunks@.len() == i,
            forall|j: int|
                0 <= j < i ==> ((#[trigger] chunks@[j]).0@, chunks@[j].1@) == todas[j],
        decreases linhas@.len() - i,
    {
        let l = &linhas[i];
        let embedding = decodificar_embedding(l.embedding.as_slice());
        chunks.push(
            (
                RegraChunk {
                    categoria: l.categoria.clone(),
                    titulo: l.titulo.clone(),
                    texto: l.texto.clone(),
                },
                embedding,
            ),
        );
        i += 1;
    }
    assert(entradas(chunks@) =~= todas);
    Some(RagIndex { chunks })
}

/// As regras mais bem pontuadas, no máximo `k`, da maior pontuação para a
/// menor.
pub open spec fn mais_relevantes(
    entradas: Seq<(RegraView, Seq<u32>)>,
    ps: Seq<Pontuacao>,
    k: int,
) -> Seq<RegraView> {
    let todos = ranking(ps, ps.len() as int);
    Seq::new(
        (if k < todos.len() {
            k
        } else {
            todos.len() as int
        }) as nat,
        |i: int| entradas[todos[i]].0,
    )
}

impl RagIndex {
    /// As `k` regras mais relevantes, dada a pontuação de cada trecho para a
    /// consulta. Entre pontuações iguais vale a ordem do índice.
    pub fn buscar_relevantes(&self, pontos: &[Pontuacao], k: usize) -> (r: Vec<RegraChunk>)
        requires
            pontos@.len() == self@.len(),
            ordenaveis(pontos@),
        ensures
            regras(r@) == mais_relevantes(self@, pontos@, k as int),
    {
        let ordem = ordenar(pontos);
        let ghost todos = ranking(pontos@, pontos@.len() as int);
        let mut r: Vec<RegraChunk> = Vec::new();
        let mut i: usize = 0;
        assert(ordem@.len() == indices(ordem@).len());
        while i < ordem.len() && i < k
            invariant
                i <= ordem@.len(),
                i <= k,
                todos == indices(ordem@),
                em_ordem(todos, pontos@, pontos@.len() as int),
                pontos@.len() == self@.len(),
                r@.len() == i,
                forall|j: int| 0 <= j < i ==> (#[trigger] r@[j])@ == self@[todos[j]].0,
            decreases ordem@.len() - i,
        {
            assert(todos[i as int] == ordem@[i as int]);
            assert(self@.len() == self.chunks@.len());
            let c = &self.chunks[ordem[i]].0;
            r.push(c.clone());
            i += 1;
        }
        assert(regras(r@) =~= mais_relevantes(self@, pontos@, k as int));
        r
    }
}

// ---------------------------------------------------------------------------
// Prompt
// ---------------------------------------------------------------------------

/// Uma regra, como o modelo a lê.
pub open spec fn linha_da_regra(c: RegraView) -> Seq<char> {
    "["@ + c.categoria + "] "@ + c.titulo + ": "@ + c.texto
}

/// As regras, como o modelo as lê.
pub open spec fn linhas_das_regras(cs: Seq<RegraView>) -> Seq<Seq<char>> {
    cs.map_values(|c: RegraView| linha_da_regra(c))
}

/// Formata as regras para um prompt, uma por linha; sem regras é vazio.
pub fn formatar_para_prompt(chunks: &[RegraChunk]) -> (r: String)
    ensures
        r@ == juntado(linhas_das_regras(regras(chunks@)), "\n"@),
        chunks@.len() == 0 ==> r@.len() == 0,
{
    let ghost linhas = linhas_das_regras(regras(chunks@));
    let mut partes: Vec<String> = Vec::new();
    let mut i: usize = 0;
    while i < chunks.len()
        invariant
            i <= chunks@.len(),
            linhas == linhas_das_regras(regras(chunks@)),
            partes@.len() == i,
            forall|j: int| 0 <= j < i ==> (#[trigger] partes@[j])@ == linhas[j],
        decreases chunks@.len() - i,
    {
        let c = &chunks[i];
        let mut s = "[".to_string();
        s.append(c.categoria.as_str());
        s.append("] ");
        s.append(c.titulo.as_str());
        s.append(": ");
        s.append(c.texto.as_str());
        partes.push(s);
        i += 1;
    }
    assert(textos(partes@) =~= linhas);
    juntar(partes.as_slice(), "\n")
}

// ---------------------------------------------------------------------------
// Leis da busca
// ---------------------------------------------------------------------------

/// Uma pontuação é maior que outra quando as duas são números e o número é maior:
/// o bit de sinal inverte a ordem dos outros bits, e acima dos bits do infinito
/// não há número.
pub proof fn lei_maior(a: u32, b: u32)
    requires
        a <= 0x7f80_0000,
        b <= 0x7f80_0000,
    ensures
        maior(Eixo { bits: a }, Eixo { bits: b }) <==> a > b,
        maior(Eixo { bits: a }, Eixo { bits: (0x8000_0000 + b) as u32 }) <==> a > 0 || b > 0,
        !maior(Eixo { bits: (0x8000_0000 + a) as u32 }, Eixo { bits: b }),
        maior(Eixo { bits: (0x8000_0000 + a) as u32 }, Eixo { bits: (0x8000_0000 + b) as u32 })
            <==> a < b,
{
}

/// O que não é número não é maior nem menor que nada.
pub proof fn lei_sem_numero_nao_ha_ordem(a: Pontuacao, b: Pontuacao)
    requires
        0x7f80_0000 < a.bits < 0x8000_0000 || a.bits > 0xff80_0000,
    ensures
        !maior(a, b),
        !maior(b, a),
{
}

proof fn lema_com_indice_tem(r: Seq<int>, ps: Seq<Pontuacao>, i: int, x: int)
    requires
        x == i || r.contains(x),
    ensures
        com_indice(r, ps, i).contains(x),
    decreases r.len(),
{
    let novo = com_indice(r, ps, i);
    if r.len() > 0 && maior(ps[i], ps[r.last()]) {
        let s = r.drop_last();
        if x != i {
            let k = choose|k: int| 0 <= k < r.len() && r[k] == x;
            if k == r.len() - 1 {
                assert(novo.last() == x);
                assert(novo[novo.len() - 1] == x);
            } else {
                assert(s[k] == x);
                lema_com_indice_tem(s, ps, i, x);
                let t = com_indice(s, ps, i);
                let j = choose|j: int| 0 <= j < t.len() && t[j] == x;
                assert(novo[j] == x);
            }
        } else {
            lema_com_indice_tem(s, ps, i, x);
            let t = com_indice(s, ps, i);
            let j = choose|j: int| 0 <= j < t.len() && t[j] == x;
            assert(novo[j] == x);
        }
    } else {
        if x == i {
            assert(novo[r.len() as int] == x);
        } else {
            let k = choose|k: int| 0 <= k < r.len() && r[k] == x;
            assert(novo[k] == x);
        }
    }
}

proof fn lema_ranking_tem(ps: Seq<Pontuacao>, n: int, x: int)
    requires
        0 <= x < n,
    ensures
        ranking(ps, n).contains(x),
    decreases n,
{
    if x < n - 1 {
        lema_ranking_tem(ps, n - 1, x);
    }
    lema_com_indice_tem(ranking(ps, n - 1), ps, n - 1, x);
}

/// A busca devolve os melhores trechos: tantos quantos se pediram, ou todos se
/// são menos; da maior pontuação para a menor, e entre iguais na ordem do índice;
/// e nenhum que ficou de fora pontua mais que um devolvido, nem igual e vem antes.
pub proof fn lei_busca_devolve_os_melhores(
    entradas: Seq<(RegraView, Seq<u32>)>,
    ps: Seq<Pontuacao>,
    k: int,
) -> (escolhidos: Seq<int>)
    requires
        ps.len() == entradas.len(),
        ordenaveis(ps),
        0 <= k,
    ensures
        ({
            let r = mais_relevantes(entradas, ps, k);
            &&& r.len() == escolhidos.len()
            &&& k <= entradas.len() ==> r.len() == k
            &&& k > entradas.len() ==> r.len() == entradas.len()
            &&& forall|a: int|
                0 <= a < escolhidos.len() ==> 0 <= #[trigger] escolhidos[a] < entradas.len() && r[a]
                    == entradas[escolhidos[a]].0
            &&& forall|a: int, b: int|
                0 <= a < b < escolhidos.len() ==> {
                    let x = #[trigger] escolhidos[a];
                    let y = #[trigger] escolhidos[b];
                    x != y && !maior(ps[y], ps[x]) && (maior(ps[x], ps[y]) || x < y)
                }
            &&& forall|i: int, a: int|
                0 <= i < entradas.len() && 0 <= a < escolhidos.len() && !escolhidos.contains(i)
                    ==> {
                    let x = #[trigger] escolhidos[a];
                    !maior(#[trigger] ps[i], ps[x]) && (maior(ps[x], ps[i]) || x < i)
                }
        }),
{
    let todos = ranking(ps, ps.len() as int);
    lei_ranking(ps, ps.len() as int);
    let r = mais_relevantes(entradas, ps, k);
    let escolhidos = todos.take(r.len() as int);
    assert forall|a: int, b: int| 0 <= a < b < escolhidos.len() implies {
        let x = #[trigger] escolhidos[a];
        let y = #[trigger] escolhidos[b];
        x != y && !maior(ps[y], ps[x]) && (maior(ps[x], ps[y]) || x < y)
    } by {
        assert(vem_antes(ps, todos[a], todos[b]));
    }
    assert forall|i: int, a: int|
        0 <= i < entradas.len() && 0 <= a < escolhidos.len() && !escolhidos.contains(i) implies {
        let x = #[trigger] escolhidos[a];
        !maior(#[trigger] ps[i], ps[x]) && (maior(ps[x], ps[i]) || x < i)
    } by {
        lema_ranking_tem(ps, ps.len() as int, i);
        let b = choose|b: int| 0 <= b < todos.len() && todos[b] == i;
        if b < escolhidos.len() {
            assert(escolhidos[b] == i);
        }
        assert(vem_antes(ps, todos[a], todos[b]));
    }
    escolhidos
}

/// Cada número de um vetor é o de quatro bytes seguidos, o menos significativo
/// primeiro; os bytes que sobram no fim não contam.
pub proof fn lei_decodificado(bytes: Seq<u8>)
    ensures
        decodificado(bytes).len() == bytes.len() / 4,
        forall|i: int|
            0 <= i < bytes.len() / 4 ==> #[trigger] decodificado(bytes)[i] == bytes[4 * i] + 256
                * bytes[4 * i + 1] + 65536 * bytes[4 * i + 2] + 16777216 * bytes[4 * i + 3],
{
    assert forall|i: int| 0 <= i < bytes.len() / 4 implies #[trigger] decodificado(bytes)[i]
        == bytes[4 * i] + 256 * bytes[4 * i + 1] + 65536 * bytes[4 * i + 2] + 16777216 * bytes[4 * i
        + 3] by {
        lema_bytes_do_numero(bytes[4 * i], bytes[4 * i + 1], bytes[4 * i + 2], bytes[4 * i + 3]);
    }
}

/// O índice tem um trecho por linha da tabela, na ordem, com a regra e o vetor da
/// linha.
pub proof fn lei_indice_da_tabela(ls: Seq<LinhaRegra>)
    ensures
        entradas_das_linhas(ls).len() == ls.len(),
        forall|i: int|
            0 <= i < ls.len() ==> {
                let (regra, vetor) = #[trigger] entradas_das_linhas(ls)[i];
                &&& regra.categoria == ls[i].categoria@
                &&& regra.titulo == ls[i].titulo@
                &&& regra.texto == ls[i].texto@
                &&& vetor == decodificado(ls[i].embedding@)
            },
{
}

/// O prompt de regras cresce uma linha por regra: sem regras é vazio, e cada
/// regra a mais é uma linha no fim, com a categoria, o título e o texto.
pub proof fn lei_prompt_de_regras(cs: Seq<RegraView>, c: RegraView)
    ensures
        juntado(linhas_das_regras(Seq::empty()), "\n"@).len() == 0,
        juntado(linhas_das_regras(cs.push(c)), "\n"@) == juntado(linhas_das_regras(cs), "\n"@) + (
        if cs.len() == 0 {
            Seq::empty()
        } else {
            "\n"@
        }) + ("["@ + c.categoria + "] "@ + c.titulo + ": "@ + c.texto),
{
    assert(linhas_das_regras(cs.push(c)) =~= linhas_das_regras(cs).push(linha_da_regra(c)));
    crate::texto::lema_juntado_parte(linhas_das_regras(cs), "\n"@, linha_da_regra(c));
    if cs.len() == 0 {
        assert(linhas_das_regras(cs) =~= Seq::<Seq<char>>::empty());
        assert(Seq::<char>::empty() + Seq::<char>::empty() + linha_da_regra(c) =~= linha_da_regra(
            c,
        ));
    }
}

} // verus!
