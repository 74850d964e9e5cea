//! Ingestão das regras do SRD 5.1: dos dados lidos aos trechos que a busca de
//! regras indexa.

use crate::texto::{
    apara, aparado, decimal, escreve_decimal, espaco, juntado, juntar, lei_aparado,
    lei_aparado_vazio, lei_aparar_so_tira_espaco, lema_juntado_parte, limpa, para_chars, sem_margem_direita,
    sem_margem_esquerda, textos,
};
use vstd::prelude::*;

verus! {

/// Tamanho-alvo, em caracteres, de um trecho de regra geral: um trecho grande
/// demais dilui o vetor.
pub const RULE_CHUNK_TARGET_CHARS: usize = 700;

/// Uma condição do SRD.
#[derive(Debug, Clone)]
pub struct SrdCondition {
    pub name: String,
    pub desc: Vec<String>,
}

/// Uma magia do SRD; `school` e `classes` pelos seus nomes.
#[derive(Debug, Clone)]
pub struct SrdSpell {
    pub name: String,
    pub desc: Vec<String>,
    pub higher_level: Vec<String>,
    pub level: u8,
    pub school: String,
    pub classes: Vec<String>,
}

/// Uma seção de regra geral do SRD.
#[derive(Debug, Clone)]
pub struct SrdRuleSection {
    pub name: String,
    pub desc: String,
}

/// Um trecho a indexar: categoria, título e texto.
pub type Trecho = (String, String, String);

/// O que um [`Trecho`] diz.
pub type TrechoView = (Seq<char>, Seq<char>, Seq<char>);

/// O que uma lista de trechos diz.
pub open spec fn trechos(ts: Seq<Trecho>) -> Seq<TrechoView> {
    ts.map_values(|t: Trecho| (t.0@, t.1@, t.2@))
}

fn trecho(categoria: &str, titulo: &str, texto: &str) -> (t: Trecho)
    ensures
        (t.0@, t.1@, t.2@) == (categoria@, titulo@, texto@),
{
    (categoria.to_string(), titulo.to_string(), texto.to_string())
}

// ---------------------------------------------------------------------------
// Parágrafos
// ---------------------------------------------------------------------------

/// O parágrafo que um pedaço de texto dá, se não é só espaço.
pub open spec fn paragrafo(s: Seq<char>) -> Seq<Seq<char>> {
    if aparado(s).len() == 0 {
        Seq::empty()
    } else {
        seq![aparado(s)]
    }
}

/// Há uma linha em branco na posição `i`: duas quebras seguidas.
pub open spec fn linha_em_branco(s: Seq<char>, i: int) -> bool {
    0 <= i && i + 1 < s.len() && s[i] == '\n' && s[i + 1] == '\n'
}

/// Os parágrafos do texto a partir de `inicio`, sem linha em branco antes de
/// `de`: os pedaços entre linhas em branco, aparados, menos os vazios.
pub open spec fn paragrafos(s: Seq<char>, inicio: int, de: int) -> Seq<Seq<char>>
    decreases s.len() - de,
{
    if de + 1 >= s.len() {
        paragrafo(s.subrange(inicio, s.len() as int))
    } else if linha_em_branco(s, de) {
        paragrafo(s.subrange(inicio, de)) + paragrafos(s, de + 2, de + 2)
    } else {
        paragrafos(s, inicio, de + 1)
    }
}

/// Os blocos fechados e o bloco aberto depois dos `n` primeiros parágrafos. Um
/// parágrafo entra no bloco aberto se os dois, com a linha em branco que os
/// junta, não passam do alvo; senão fecha o bloco e abre outro.
pub open spec fn empacotado(ps: Seq<Seq<char>>, n: int, alvo: int) -> (Seq<Seq<char>>, Seq<char>)
    decreases n,
{
    if n <= 0 {
        (Seq::empty(), Seq::empty())
    } else {
        let (fechados, aberto) = empacotado(ps, n - 1, alvo);
        let p = ps[n - 1];
        if aberto.len() == 0 {
            (fechados, p)
        } else if aberto.len() + 2 + p.len() > alvo {
            (fechados.push(aparado(aberto)), p)
        } else {
            (fechados, aberto + "\n\n"@ + p)
        }
    }
}

/// Os blocos em que os parágrafos se juntam.
pub open spec fn blocos(ps: Seq<Seq<char>>, alvo: int) -> Seq<Seq<char>> {
    let (fechados, aberto) = empacotado(ps, ps.len() as int, alvo);
    if aberto.len() == 0 {
        fechados
    } else {
        fechados.push(aparado(aberto))
    }
}

fn guardar_paragrafo(r: &mut Vec<String>, s: &str, inicio: usize, fim: usize)
    requires
        inicio <= fim <= s@.len(),
    ensures
        textos(final(r)@) == textos(old(r)@) + paragrafo(s@.subrange(inicio as int, fim as int)),
{
    let p = apara(s.substring_char(inicio, fim));
    let ghost antes = r@;
    if p.unicode_len() > 0 {
        r.push(p.to_string());
    }
    assert(textos(r@) =~= textos(antes) + paragrafo(s@.subrange(inicio as int, fim as int)));
}

fn separar_paragrafos(texto: &str) -> (r: Vec<String>)
    ensures
        textos(r@) == paragrafos(texto@, 0, 0),
{
    let cs = para_chars(texto);
    let mut r: Vec<String> = Vec::new();
    let mut inicio: usize = 0;
    let mut de: usize = 0;
    assert(textos(r@) + paragrafos(texto@, 0, 0) =~= paragrafos(texto@, 0, 0));
    while de < cs.len() && cs.len() - de > 1
        invariant
            inicio <= de <= cs@.len(),
            cs@ == texto@,
            textos(r@) + paragrafos(texto@, inicio as int, de as int) == paragrafos(texto@, 0, 0),
        decreases cs@.len() - de,
    {
        if cs[de] == '\n' && cs[de + 1] == '\n' {
            let ghost antes = textos(r@);
            guardar_paragrafo(&mut r, texto, inicio, de);
            proof {
                let p = paragrafo(texto@.subrange(inicio as int, de as int));
                let resto = paragrafos(texto@, de + 2, de + 2);
                assert((antes + p) + resto =~= antes + (p + resto));
            }
            de += 2;
            inicio = de;
        } else {
            de += 1;
        }
    }
    guardar_paragrafo(&mut r, texto, inicio, cs.len());
    r
}

/// Junta parágrafos (separados por linha em branco) em blocos de até
/// `target_chars` caracteres, sem quebrar um parágrafo no meio. Um parágrafo
/// sozinho maior que o alvo é um bloco só dele.
pub fn chunk_paragraphs(texto: &str, target_chars: usize) -> (r: Vec<String>)
    ensures
        textos(r@) == blocos(paragrafos(texto@, 0, 0), target_chars as int),
{
    let ps = separar_paragrafos(texto);
    let ghost vs = textos(ps@);
    let ghost alvo = target_chars as int;
    let mut fechados: Vec<String> = Vec::new();
    let mut aberto = String::new();
    let mut i: usize = 0;
    assert(textos(fechados@) =~= Seq::<Seq<char>>::empty());
    while i < ps.len()
        invariant
            i <= ps@.len(),
            vs == textos(ps@),
            alvo == target_chars,
            (textos(fechados@), aberto@) == empacotado(vs, i as int, alvo),
        decreases ps@.len() - i,
    {
        let p = ps[i].as_str();
        assert(vs[i as int] == p@);
        let ghost antes = fechados@;
        if aberto.as_str().unicode_len() == 0 {
            aberto = p.to_string();
        } else if aberto.as_str().unicode_len() as u128 + 2 + p.unicode_len() as u128
            > target_chars as u128 {
            fechados.push(apara(aberto.as_str()).to_string());
            assert(textos(fechados@) =~= textos(antes).push(aparado(aberto@)));
            aberto = p.to_string();
        } else {
            aberto.append("\n\n");
            aberto.append(p);
        }
        i += 1;
    }
    if aberto.as_str().unicode_len() > 0 {
        let ghost antes = fechados@;
        fechados.push(apara(aberto.as_str()).to_string());
        assert(textos(fechados@) =~= textos(antes).push(aparado(aberto@)));
    }
    fechados
}

/// Todo parágrafo tem texto e não tem espaço nas pontas.
pub proof fn lei_paragrafos_limpos(s: Seq<char>, inicio: int, de: int)
    requires
        0 <= inicio <= de,
    ensures
        forall|i: int|
            0 <= i < paragrafos(s, inicio, de).len() ==> limpa(
                #[trigger] paragrafos(s, inicio, de)[i],
            ),
    decreases s.len() - de,
{
    if de + 1 >= s.len() {
        lei_aparado(s.subrange(inicio, s.len() as int));
    } else if linha_em_branco(s, de) {
        lei_aparado(s.subrange(inicio, de));
        lei_paragrafos_limpos(s, de + 2, de + 2);
        let p = paragrafo(s.subrange(inicio, de));
        let resto = paragrafos(s, de + 2, de + 2);
        assert(paragrafos(s, inicio, de) == p + resto);
        assert forall|i: int| 0 <= i < (p + resto).len() implies limpa(
            #[trigger] (p + resto)[i],
        ) by {
            if i >= p.len() {
                assert((p + resto)[i] == resto[i - p.len()]);
            }
        }
    } else {
        lei_paragrafos_limpos(s, inicio, de + 1);
        assert(paragrafos(s, inicio, de) == paragrafos(s, inicio, de + 1));
    }
}

proof fn lema_aberto_limpo(ps: Seq<Seq<char>>, n: int, alvo: int)
    requires
        0 <= n <= ps.len(),
        forall|i: int| 0 <= i < ps.len() ==> limpa(#[trigger] ps[i]),
    ensures
        n > 0 ==> limpa(empacotado(ps, n, alvo).1),
        n == 0 ==> empacotado(ps, n, alvo).1.len() == 0,
    decreases n,
{
    if n > 0 {
        lema_aberto_limpo(ps, n - 1, alvo);
        assert(limpa(ps[n - 1]));
    }
}

proof fn lema_empacotado_guarda(ps: Seq<Seq<char>>, n: int, alvo: int)
    requires
        0 < n <= ps.len(),
        forall|i: int| 0 <= i < ps.len() ==> limpa(#[trigger] ps[i]),
    ensures
        juntado(
            empacotado(ps, n, alvo).0.push(empacotado(ps, n, alvo).1),
            "\n\n"@,
        ) == juntado(ps.take(n), "\n\n"@),
    decreases n,
{
    let sep = "\n\n"@;
    let (fechados, aberto) = empacotado(ps, n - 1, alvo);
    let p = ps[n - 1];
    lema_aberto_limpo(ps, n - 1, alvo);
    assert(ps.take(n) =~= ps.take(n - 1).push(p));
    lema_juntado_parte(ps.take(n - 1), sep, p);
    if n == 1 {
        lema_juntado_parte(fechados, sep, p);
    } else {
        lema_empacotado_guarda(ps, n - 1, alvo);
        lei_aparado(aberto);
        if aberto.len() + 2 + p.len() > alvo {
            lema_juntado_parte(fechados.push(aberto), sep, p);
        } else {
            lema_juntado_parte(fechados, sep, aberto);
            lema_juntado_parte(fechados, sep, aberto + sep + p);
            if fechados.len() > 0 {
                assert(juntado(fechados, sep) + sep + (aberto + sep + p) =~= (juntado(
                    fechados,
                    sep,
                ) + sep + aberto) + sep + p);
            }
        }
    }
}

/// Os blocos guardam todo o texto dos parágrafos, na ordem: juntá-los de novo é
/// juntar os parágrafos.
pub proof fn lei_blocos_guardam_o_texto(ps: Seq<Seq<char>>, alvo: int)
    requires
        forall|i: int| 0 <= i < ps.len() ==> limpa(#[trigger] ps[i]),
    ensures
        juntado(blocos(ps, alvo), "\n\n"@) == juntado(ps, "\n\n"@),
{
    let n = ps.len() as int;
    lema_aberto_limpo(ps, n, alvo);
    assert(ps.take(n) =~= ps);
    if n > 0 {
        lema_empacotado_guarda(ps, n, alvo);
        lei_aparado(empacotado(ps, n, alvo).1);
    }
}

/// O bloco cabe no alvo, ou é um parágrafo sozinho.
pub open spec fn bloco_justo(b: Seq<char>, ps: Seq<Seq<char>>, alvo: int) -> bool {
    b.len() <= alvo || ps.contains(b)
}

/// O bloco é uma sequência de parágrafos inteiros e vizinhos.
pub open spec fn de_paragrafos_inteiros(b: Seq<char>, ps: Seq<Seq<char>>) -> bool {
    exists|i: int, j: int|
        0 <= i < j <= ps.len() && b == juntado(#[trigger] ps.subrange(i, j), "\n\n"@)
}

proof fn lema_empacotado_justo(ps: Seq<Seq<char>>, n: int, alvo: int) -> (i: int)
    requires
        0 <= n <= ps.len(),
        forall|k: int| 0 <= k < ps.len() ==> limpa(#[trigger] ps[k]),
    ensures
        forall|k: int|
            0 <= k < empacotado(ps, n, alvo).0.len() ==> bloco_justo(
                #[trigger] empacotado(ps, n, alvo).0[k],
                ps,
                alvo,
            ) && de_paragrafos_inteiros(empacotado(ps, n, alvo).0[k], ps),
        n > 0 ==> 0 <= i < n && bloco_justo(empacotado(ps, n, alvo).1, ps, alvo)
            && empacotado(ps, n, alvo).1 == juntado(ps.subrange(i, n), "\n\n"@),
    decreases n,
{
    if n == 0 {
        0
    } else {
        let sep = "\n\n"@;
        reveal_strlit("\n\n");
        let antes = lema_empacotado_justo(ps, n - 1, alvo);
        lema_aberto_limpo(ps, n - 1, alvo);
        let (fechados, aberto) = empacotado(ps, n - 1, alvo);
        let p = ps[n - 1];
        assert(ps.contains(p));
        assert(ps.subrange(n - 1, n) =~= seq![p]);
        if n > 1 {
            lei_aparado(aberto);
            assert(de_paragrafos_inteiros(aberto, ps)) by {
                assert(aberto == juntado(ps.subrange(antes, n - 1), sep));
            }
            assert(ps.subrange(antes, n) =~= ps.subrange(antes, n - 1).push(p));
            lema_juntado_parte(ps.subrange(antes, n - 1), sep, p);
        }
        if n == 1 || aberto.len() + 2 + p.len() > alvo {
            n - 1
        } else {
            antes
        }
    }
}

/// Nenhum bloco passa do alvo, salvo um parágrafo sozinho, e nenhum parágrafo é
/// quebrado: cada bloco é uma sequência de parágrafos inteiros e vizinhos.
pub proof fn lei_blocos_justos(ps: Seq<Seq<char>>, alvo: int)
    requires
        forall|i: int| 0 <= i < ps.len() ==> limpa(#[trigger] ps[i]),
    ensures
        forall|i: int|
            0 <= i < blocos(ps, alvo).len() ==> bloco_justo(
                #[trigger] blocos(ps, alvo)[i],
                ps,
                alvo,
            ) && de_paragrafos_inteiros(blocos(ps, alvo)[i], ps),
{
    let n = ps.len() as int;
    let i = lema_empacotado_justo(ps, n, alvo);
    lema_aberto_limpo(ps, n, alvo);
    if n > 0 {
        lei_aparado(empacotado(ps, n, alvo).1);
        assert(de_paragrafos_inteiros(empacotado(ps, n, alvo).1, ps)) by {
            assert(empacotado(ps, n, alvo).1 == juntado(ps.subrange(i, n), "\n\n"@));
        }
    }
}

/// O texto não tem linha em branco.
pub open spec fn sem_linha_em_branco(s: Seq<char>) -> bool {
    forall|i: int| !#[trigger] linha_em_branco(s, i)
}

proof fn lema_aparado_e_pedaco(s: Seq<char>)
    requires
        sem_linha_em_branco(s),
    ensures
        sem_linha_em_branco(aparado(s)),
{
    lema_esquerda_sem_linha(s);
    lema_direita_sem_linha(sem_margem_esquerda(s));
}

proof fn lema_esquerda_sem_linha(s: Seq<char>)
    requires
        sem_linha_em_branco(s),
    ensures
        sem_linha_em_branco(sem_margem_esquerda(s)),
    decreases s.len(),
{
    if s.len() > 0 && espaco(s[0]) {
        let t = s.drop_first();
        assert forall|i: int| !#[trigger] linha_em_branco(t, i) by {
            assert(!linha_em_branco(s, i + 1));
        }
        lema_esquerda_sem_linha(t);
    }
}

proof fn lema_direita_sem_linha(s: Seq<char>)
    requires
        sem_linha_em_branco(s),
    ensures
        sem_linha_em_branco(sem_margem_direita(s)),
    decreases s.len(),
{
    if s.len() > 0 && espaco(s.last()) {
        let t = s.drop_last();
        assert forall|i: int| !#[trigger] linha_em_branco(t, i) by {
            assert(!linha_em_branco(s, i));
        }
        lema_direita_sem_linha(t);
    }
}

proof fn lema_pedaco_sem_linha(s: Seq<char>, inicio: int, fim: int)
    requires
        0 <= inicio <= fim <= s.len(),
        forall|j: int| inicio <= j < fim - 1 ==> !#[trigger] linha_em_branco(s, j),
    ensures
        sem_linha_em_branco(aparado(s.subrange(inicio, fim))),
{
    let t = s.subrange(inicio, fim);
    assert forall|i: int| !#[trigger] linha_em_branco(t, i) by {
        if 0 <= i && i + 1 < t.len() {
            assert(!linha_em_branco(s, inicio + i));
        }
    }
    lema_aparado_e_pedaco(t);
}

/// Nenhum parágrafo tem linha em branco dentro.
pub proof fn lei_paragrafos_sem_linha_em_branco(s: Seq<char>, inicio: int, de: int)
    requires
        0 <= inicio <= de <= s.len(),
        forall|j: int| inicio <= j < de ==> !#[trigger] linha_em_branco(s, j),
    ensures
        forall|i: int|
            0 <= i < paragrafos(s, inicio, de).len() ==> sem_linha_em_branco(
                #[trigger] paragrafos(s, inicio, de)[i],
            ),
    decreases s.len() - de,
{
    if de + 1 >= s.len() {
        lema_pedaco_sem_linha(s, inicio, s.len() as int);
    } else if linha_em_branco(s, de) {
        lema_pedaco_sem_linha(s, inicio, de);
        lei_paragrafos_sem_linha_em_branco(s, de + 2, de + 2);
        let p = paragrafo(s.subrange(inicio, de));
        let resto = paragrafos(s, de + 2, de + 2);
        assert(paragrafos(s, inicio, de) == p + resto);
        assert forall|i: int| 0 <= i < (p + resto).len() implies sem_linha_em_branco(
            #[trigger] (p + resto)[i],
        ) by {
            if i >= p.len() {
                assert((p + resto)[i] == resto[i - p.len()]);
            }
        }
    } else {
        lei_paragrafos_sem_linha_em_branco(s, inicio, de + 1);
        assert(paragrafos(s, inicio, de) == paragrafos(s, inicio, de + 1));
    }
}

proof fn lema_um_paragrafo(s: Seq<char>, inicio: int, de: int)
    requires
        0 <= inicio <= de,
        forall|j: int| inicio <= j ==> !#[trigger] linha_em_branco(s, j),
    ensures
        paragrafos(s, inicio, de) == paragrafo(s.subrange(inicio, s.len() as int)),
    decreases s.len() - de,
{
    if de + 1 < s.len() {
        assert(!linha_em_branco(s, de));
        lema_um_paragrafo(s, inicio, de + 1);
    }
}

proof fn lema_paragrafo_no_fim(t: Seq<char>, p: Seq<char>, inicio: int, de: int)
    requires
        limpa(t),
        limpa(p),
        sem_linha_em_branco(p),
        0 <= inicio <= de <= t.len(),
    ensures
        paragrafos(t + "\n\n"@ + p, inicio, de) == paragrafos(t, inicio, de).push(p),
    decreases t.len() - de,
{
    reveal_strlit("\n\n");
    let s = t + "\n\n"@ + p;
    let n = t.len() as int;
    if de + 1 < n {
        assert(s[de] == t[de] && s[de + 1] == t[de + 1]);
        if linha_em_branco(t, de) {
            assert(linha_em_branco(s, de));
            lema_paragrafo_no_fim(t, p, de + 2, de + 2);
            assert(s.subrange(inicio, de) =~= t.subrange(inicio, de));
            let q = paragrafo(t.subrange(inicio, de));
            let resto = paragrafos(t, de + 2, de + 2);
            assert(q + resto.push(p) =~= (q + resto).push(p));
        } else {
            assert(!linha_em_branco(s, de));
            lema_paragrafo_no_fim(t, p, inicio, de + 1);
        }
    } else if de + 1 == n {
        assert(s[de] == t.last());
        assert(!linha_em_branco(s, de));
        lema_paragrafo_no_fim(t, p, inicio, n);
        assert(paragrafos(t, inicio, de) == paragrafos(t, inicio, n));
    } else {
        assert(s[n] == '\n' && s[n + 1] == '\n');
        assert(linha_em_branco(s, n));
        assert(s.subrange(inicio, n) =~= t.subrange(inicio, n));
        assert forall|j: int| n + 2 <= j implies !#[trigger] linha_em_branco(s, j) by {
            assert(!linha_em_branco(p, j - (n + 2)));
        }
        lema_um_paragrafo(s, n + 2, n + 2);
        assert(s.subrange(n + 2, s.len() as int) =~= p);
        lei_aparado(p);
        let q = paragrafo(t.subrange(inicio, n));
        assert(q + seq![p] =~= q.push(p));
    }
}

proof fn lema_juntado_limpo(ps: Seq<Seq<char>>)
    requires
        ps.len() > 0,
        forall|i: int| 0 <= i < ps.len() ==> limpa(#[trigger] ps[i]),
    ensures
        limpa(juntado(ps, "\n\n"@)),
    decreases ps.len(),
{
    if ps.len() > 1 {
        lema_juntado_limpo(ps.drop_last());
        assert(limpa(ps[ps.len() - 1]));
    } else {
        assert(limpa(ps[0]));
    }
}

/// Juntar parágrafos por linhas em branco e separá-los de novo dá os mesmos
/// parágrafos.
pub proof fn lei_separar_desfaz_juntar(ps: Seq<Seq<char>>)
    requires
        forall|i: int|
            0 <= i < ps.len() ==> limpa(#[trigger] ps[i]) && sem_linha_em_branco(ps[i]),
    ensures
        paragrafos(juntado(ps, "\n\n"@), 0, 0) == ps,
    decreases ps.len(),
{
    let s = juntado(ps, "\n\n"@);
    if ps.len() == 0 {
        assert(s.subrange(0, 0) =~= Seq::<char>::empty());
        lei_aparado_vazio(s.subrange(0, 0));
        assert(paragrafos(s, 0, 0) =~= ps);
    } else if ps.len() == 1 {
        assert(limpa(ps[0]));
        lema_um_paragrafo(s, 0, 0);
        assert(s.subrange(0, s.len() as int) =~= s);
        lei_aparado(s);
        assert(paragrafos(s, 0, 0) =~= ps);
    } else {
        let resto = ps.drop_last();
        assert(limpa(ps[ps.len() - 1]));
        lei_separar_desfaz_juntar(resto);
        lema_juntado_limpo(resto);
        lema_paragrafo_no_fim(juntado(resto, "\n\n"@), ps.last(), 0, 0);
        assert(resto.push(ps.last()) =~= ps);
    }
}

/// Dividir de novo o texto dos blocos dá os mesmos blocos.
pub proof fn lei_dividir_de_novo(s: Seq<char>, alvo: int)
    ensures
        ({
            let bs = blocos(paragrafos(s, 0, 0), alvo);
            blocos(paragrafos(juntado(bs, "\n\n"@), 0, 0), alvo) == bs
        }),
{
    let ps = paragrafos(s, 0, 0);
    lei_paragrafos_limpos(s, 0, 0);
    lei_paragrafos_sem_linha_em_branco(s, 0, 0);
    lei_blocos_guardam_o_texto(ps, alvo);
    lei_separar_desfaz_juntar(ps);
}

// ---------------------------------------------------------------------------
// Dados
// ---------------------------------------------------------------------------

/// Os trechos mínimos, para validar sem rede.
pub open spec fn dados_minimos() -> Seq<TrechoView> {
    seq![
        (
            "magia"@,
            "Magic Missile"@,
            "A creature you can see within range. Consult the rules about magical damage and resistance."@,
        ),
        (
            "magia"@,
            "Fireball"@,
            "Each creature in a 20-foot-radius sphere centered on the point of impact is forced to make a Dexterity saving throw."@,
        ),
        (
            "magia"@,
            "Cure Wounds"@,
            "A creature you touch regains a number of hit points equal to 1d8 + your spellcasting ability modifier."@,
        ),
        (
            "condicao"@,
            "Charmed"@,
            "A charmed creature can't attack the charmer or target the charmer with harmful abilities or magical effects."@,
        ),
        (
            "condicao"@,
            "Frightened"@,
            "A frightened creature has disadvantage on attack rolls and ability checks while the source of its fear is within line of sight."@,
        ),
        (
            "condicao"@,
            "Poisoned"@,
            "A poisoned creature has disadvantage on attack rolls and ability checks."@,
        ),
        (
            "acao"@,
            "Dash"@,
            "When you take the Dash action, you gain extra movement equal to your speed for the current turn."@,
        ),
        (
            "acao"@,
            "Disengage"@,
            "If you take the Disengage action, your movement doesn't provoke opportunity attacks for the rest of the turn."@,
        ),
        (
            "combate"@,
            "Critical Hit"@,
            "When you roll a 20 on the d20 for an attack roll, you hit regardless of your modifiers, and the attack is a critical hit."@,
        ),
        (
            "combate"@,
            "Saving Throw"@,
            "When an effect allows a target to make a saving throw to resist an effect, the target rolls a d20 and adds a modifier."@,
        ),
    ]
}

/// Os trechos mínimos, para validar sem rede.
pub fn load_srd_test_data() -> (r: Vec<Trecho>)
    ensures
        trechos(r@) == dados_minimos(),
{
    let mut r: Vec<Trecho> = Vec::new();
    r.push(
        trecho(
            "magia",
            "Magic Missile",
            "A creature you can see within range. Consult the rules about magical damage and resistance.",
        ),
    );
    r.push(
        trecho(
            "magia",
            "Fireball",
            "Each creature in a 20-foot-radius sphere centered on the point of impact is forced to make a Dexterity saving throw.",
        ),
    );
    r.push(
        trecho(
            "magia",
            "Cure Wounds",
            "A creature you touch regains a number of hit points equal to 1d8 + your spellcasting ability modifier.",
        ),
    );
    r.push(
        trecho(
            "condicao",
            "Charmed",
            "A charmed creature can't attack the charmer or target the charmer with harmful abilities or magical effects.",
        ),
    );
    r.push(
        trecho(
            "condicao",
            "Frightened",
            "A frightened creature has disadvantage on attack rolls and ability checks while the source of its fear is within line of sight.",
        ),
    );
    r.push(
        trecho(
            "condicao",
            "Poisoned",
            "A poisoned creature has disadvantage on attack rolls and ability checks.",
        ),
    );
    r.push(
        trecho(
            "acao",
            "Dash",
            "When you take the Dash action, you gain extra movement equal to your speed for the current turn.",
        ),
    );
    r.push(
        trecho(
            "acao",
            "Disengage",
            "If you take the Disengage action, your movement doesn't provoke opportunity attacks for the rest of the turn.",
        ),
    );
    r.push(
        trecho(
            "combate",
            "Critical Hit",
            "When you roll a 20 on the d20 for an attack roll, you hit regardless of your modifiers, and the attack is a critical hit.",
        ),
    );
    r.push(
        trecho(
            "combate",
            "Saving Throw",
            "When an effect allows a target to make a saving throw to resist an effect, the target rolls a d20 and adds a modifier.",
        ),
    );
    assert(trechos(r@) =~= dados_minimos());
    r
}

/// O trecho de uma condição.
pub open spec fn trecho_da_condicao(c: SrdCondition) -> TrechoView {
    ("condicao"@, c.name@, juntado(textos(c.desc@), " "@))
}

/// O texto de uma magia.
pub open spec fn texto_da_magia(s: SrdSpell) -> Seq<char> {
    s.name@ + " (nível "@ + decimal(s.level as int) + ", escola "@ + s.school@ + ", classes: "@
        + juntado(textos(s.classes@), ", "@) + "). "@ + juntado(textos(s.desc@), " "@) + (if s.higher_level@.len()
        == 0 {
        Seq::empty()
    } else {
        " Em níveis superiores: "@ + juntado(textos(s.higher_level@), " "@)
    })
}

/// O trecho de uma magia.
pub open spec fn trecho_da_magia(s: SrdSpell) -> TrechoView {
    ("magia"@, s.name@, texto_da_magia(s))
}

/// O título do bloco `i` de uma seção.
pub open spec fn titulo_do_bloco(nome: Seq<char>, i: int) -> Seq<char> {
    if i == 0 {
        nome
    } else {
        nome + " (parte "@ + decimal(i + 1) + ")"@
    }
}

/// Os trechos de uma seção de regra: os seus blocos, numerados a partir do
/// segundo.
pub open spec fn trechos_da_secao(r: SrdRuleSection) -> Seq<TrechoView> {
    blocos(paragrafos(r.desc@, 0, 0), RULE_CHUNK_TARGET_CHARS as int).map(
        |i: int, texto: Seq<char>| ("regra_geral"@, titulo_do_bloco(r.name@, i), texto),
    )
}

/// Os trechos das seções, na ordem.
pub open spec fn trechos_das_secoes(rs: Seq<SrdRuleSection>) -> Seq<TrechoView>
    decreases rs.len(),
{
    if rs.len() == 0 {
        Seq::empty()
    } else {
        trechos_das_secoes(rs.drop_last()) + trechos_da_secao(rs.last())
    }
}

/// Os trechos do SRD: condições, magias e seções de regra, nessa ordem.
pub open spec fn trechos_do_srd(
    condicoes: Seq<SrdCondition>,
    magias: Seq<SrdSpell>,
    secoes: Seq<SrdRuleSection>,
) -> Seq<TrechoView> {
    condicoes.map_values(|c: SrdCondition| trecho_da_condicao(c)) + magias.map_values(
        |s: SrdSpell| trecho_da_magia(s),
    ) + trechos_das_secoes(secoes)
}

fn escrever_magia(s: &SrdSpell) -> (r: String)
    ensures
        r@ == texto_da_magia(*s),
{
    let mut r = s.name.clone();
    r.append(" (nível ");
    r.append(escreve_decimal(s.level as u64).as_str());
    r.append(", escola ");
    r.append(s.school.as_str());
    r.append(", classes: ");
    r.append(juntar(s.classes.as_slice(), ", ").as_str());
    r.append("). ");
    r.append(juntar(s.desc.as_slice(), " ").as_str());
    let ghost antes = r@;
    if s.higher_level.len() > 0 {
        r.append(" Em níveis superiores: ");
        r.append(juntar(s.higher_level.as_slice(), " ").as_str());
        assert(r@ =~= antes + (" Em níveis superiores: "@ + juntado(
            textos(s.higher_level@),
            " "@,
        )));
    } else {
        assert(r@ =~= antes + Seq::<char>::empty());
    }
    r
}

fn guardar_secao(r: &mut Vec<Trecho>, secao: &SrdRuleSection)
    ensures
        trechos(final(r)@) == trechos(old(r)@) + trechos_da_secao(*secao),
{
    let bs = chunk_paragraphs(secao.desc.as_str(), RULE_CHUNK_TARGET_CHARS);
    let ghost novos = trechos_da_secao(*secao);
    let ghost antes = trechos(r@);
    let mut i: usize = 0;
    assert(textos(bs@).len() == bs@.len());
    assert(trechos(r@) =~= antes + novos.take(0));
    while i < bs.len()
        invariant
            i <= bs@.len(),
            novos == trechos_da_secao(*secao),
            novos.len() == bs@.len(),
            textos(bs@) == blocos(
                paragrafos(secao.desc@, 0, 0),
                RULE_CHUNK_TARGET_CHARS as int,
            ),
            trechos(r@) == antes + novos.take(i as int),
        decreases bs@.len() - i,
    {
        let mut titulo = secao.name.clone();
        if i > 0 {
            titulo.append(" (parte ");
            titulo.append(escreve_decimal(i as u64 + 1).as_str());
            titulo.append(")");
        }
        let ghost cheio = r@;
        proof {
            assert(textos(bs@)[i as int] == bs@[i as int]@);
            assert(novos[i as int] == ("regra_geral"@, titulo@, bs@[i as int]@));
        }
        r.push(trecho("regra_geral", titulo.as_str(), bs[i].as_str()));
        assert(trechos(r@) =~= trechos(cheio).push(novos[i as int]));
        assert(novos.take(i + 1) =~= novos.take(i as int).push(novos[i as int]));
        i += 1;
    }
    assert(novos.take(i as int) =~= novos);
}

/// Os trechos a indexar, a partir dos dados lidos.
pub fn load_srd(
    condicoes: &[SrdCondition],
    magias: &[SrdSpell],
    secoes: &[SrdRuleSection],
) -> (r: Vec<Trecho>)
    ensures
        trechos(r@) == trechos_do_srd(condicoes@, magias@, secoes@),
{
    let ghost cs = condicoes@.map_values(|c: SrdCondition| trecho_da_condicao(c));
    let ghost ms = magias@.map_values(|s: SrdSpell| trecho_da_magia(s));
    let mut r: Vec<Trecho> = Vec::new();
    let mut i: usize = 0;
    assert(trechos(r@) =~= cs.take(0));
    while i < condicoes.len()
        invariant
            i <= condicoes@.len(),
            cs == condicoes@.map_values(|c: SrdCondition| trecho_da_condicao(c)),
            trechos(r@) == cs.take(i as int),
        decreases condicoes@.len() - i,
    {
        let ghost antes = r@;
        let texto = juntar(condicoes[i].desc.as_slice(), " ");
        r.push(trecho("condicao", condicoes[i].name.as_str(), texto.as_str()));
        assert(trechos(r@) =~= trechos(antes).push(cs[i as int]));
        assert(cs.take(i + 1) =~= cs.take(i as int).push(cs[i as int]));
        i += 1;
    }
    assert(cs.take(i as int) =~= cs);
    let mut j: usize = 0;
    assert(trechos(r@) =~= cs + ms.take(0));
    while j < magias.len()
        invariant
            j <= magias@.len(),
            ms == magias@.map_values(|s: SrdSpell| trecho_da_magia(s)),
            trechos(r@) == cs + ms.take(j as int),
        decreases magias@.len() - j,
    {
        let ghost antes = r@;
        let texto = escrever_magia(&magias[j]);
        r.push(trecho("magia", magias[j].name.as_str(), texto.as_str()));
        assert(trechos(r@) =~= trechos(antes).push(ms[j as int]));
        assert(ms.take(j + 1) =~= ms.take(j as int).push(ms[j as int]));
        assert(trechos(r@) =~= cs + ms.take(j + 1));
        j += 1;
    }
    assert(ms.take(j as int) =~= ms);
    let mut k: usize = 0;
    assert(secoes@.take(0) =~= Seq::<SrdRuleSection>::empty());
    assert(trechos(r@) =~= cs + ms + trechos_das_secoes(secoes@.take(0)));
    while k < secoes.len()
        invariant
            k <= secoes@.len(),
            trechos(r@) == cs + ms + trechos_das_secoes(secoes@.take(k as int)),
        decreases secoes@.len() - k,
    {
        guardar_secao(&mut r, &secoes[k]);
        proof {
            let agora = secoes@.take(k + 1);
            assert(agora.drop_last() =~= secoes@.take(k as int));
            assert(agora.last() == secoes@[k as int]);
            assert(trechos(r@) =~= cs + ms + trechos_das_secoes(agora));
        }
        k += 1;
    }
    assert(secoes@.take(k as int) =~= secoes@);
    r
}

/// Um trecho com o seu vetor, pelos bits.
#[derive(Debug)]
pub struct SrdChunk {
    pub categoria: String,
    pub titulo: String,
    pub texto: String,
    pub embedding: Vec<u32>,
}

/// O que uma lista de trechos com vetores diz.
pub open spec fn trechos_com_vetores(cs: Seq<SrdChunk>) -> Seq<(TrechoView, Seq<u32>)> {
    cs.map_values(
        |c: SrdChunk| ((c.categoria@, c.titulo@, c.texto@), c.embedding@),
    )
}

/// Cada trecho com o vetor da mesma posição; o que sobra de um lado ou do outro
/// não conta.
pub fn create_embeddings(ts: &[Trecho], vetores: Vec<Vec<u32>>) -> (r: Vec<SrdChunk>)
    ensures
        trechos_com_vetores(r@) == Seq::new(
            if ts@.len() < vetores@.len() {
                ts@.len()
            } else {
                vetores@.len()
            },
            |i: int| (trechos(ts@)[i], vetores@[i]@),
        ),
{
    let mut r: Vec<SrdChunk> = Vec::new();
    let mut i: usize = 0;
    while i < ts.len() && i < vetores.len()
        invariant
            i <= ts@.len(),
            i <= vetores@.len(),
            r@.len() == i,
            forall|j: int|
                0 <= j < i ==> (
                    ((#[trigger] r@[j]).categoria@, r@[j].titulo@, r@[j].texto@),
                    r@[j].embedding@,
                ) == (trechos(ts@)[j], vetores@[j]@),
        decreases ts@.len() - i,
    {
        let embedding = copiar_vetor(&vetores[i]);
        r.push(
            SrdChunk {
                categoria: ts[i].0.clone(),
                titulo: ts[i].1.clone(),
                texto: ts[i].2.clone(),
                embedding,
            },
        );
        i += 1;
    }
    assert(trechos_com_vetores(r@) =~= Seq::new(
        if ts@.len() < vetores@.len() {
            ts@.len()
        } else {
            vetores@.len()
        },
        |i: int| (trechos(ts@)[i], vetores@[i]@),
    ));
    r
}

fn copiar_vetor(v: &Vec<u32>) -> (r: Vec<u32>)
    ensures
        r@ == v@,
{
    let r = v.clone();
    assert(r@ =~= v@);
    r
}

// ---------------------------------------------------------------------------
// Leis da divisão e dos trechos
// ---------------------------------------------------------------------------

/// Há uma linha em branco inteira entre as duas posições.
pub open spec fn ha_linha_em_branco(s: Seq<char>, a: int, b: int) -> bool {
    exists|j: int| a <= j && j + 2 <= b && #[trigger] linha_em_branco(s, j)
}

/// Os parágrafos de um texto são pedaços dele, na ordem; entre dois há sempre uma
/// linha em branco, e fora deles só há espaço: nada do que se lê se perde.
pub proof fn lei_paragrafos_do_texto(s: Seq<char>, inicio: int, de: int) -> (pedacos: Seq<
    (int, int),
>)
    requires
        0 <= inicio <= de,
        inicio <= s.len(),
    ensures
        pedacos.len() == paragrafos(s, inicio, de).len(),
        forall|k: int|
            0 <= k < pedacos.len() ==> inicio <= (#[trigger] pedacos[k]).0 < pedacos[k].1 <= s.len()
                && paragrafos(s, inicio, de)[k] == s.subrange(pedacos[k].0, pedacos[k].1),
        forall|a: int, b: int|
            0 <= a < b < pedacos.len() ==> ha_linha_em_branco(
                s,
                (#[trigger] pedacos[a]).1,
                (#[trigger] pedacos[b]).0,
            ),
        forall|j: int|
            inicio <= j < s.len() ==> espaco(#[trigger] s[j]) || exists|k: int|
                0 <= k < pedacos.len() && (#[trigger] pedacos[k]).0 <= j < pedacos[k].1,
    decreases s.len() - de,
{
    if de + 1 >= s.len() {
        let t = s.subrange(inicio, s.len() as int);
        let (x, y) = lei_aparar_so_tira_espaco(t);
        let r = if x < y {
            seq![(inicio + x, inicio + y)]
        } else {
            Seq::empty()
        };
        assert(aparado(t).len() == y - x);
        if x < y {
            assert(t.subrange(x, y) =~= s.subrange(inicio + x, inicio + y));
        }
        assert forall|j: int| inicio <= j < s.len() implies espaco(#[trigger] s[j]) || exists|
            k: int,
        |
            0 <= k < r.len() && (#[trigger] r[k]).0 <= j < r[k].1 by {
            assert(s[j] == t[j - inicio]);
            if x <= j - inicio < y {
                assert(r[0].0 <= j < r[0].1);
            }
        }
        r
    } else if linha_em_branco(s, de) {
        let t = s.subrange(inicio, de);
        let (x, y) = lei_aparar_so_tira_espaco(t);
        let resto = lei_paragrafos_do_texto(s, de + 2, de + 2);
        let cabeca: Seq<(int, int)> = if x < y {
            seq![(inicio + x, inicio + y)]
        } else {
            Seq::empty()
        };
        let r = cabeca + resto;
        let c = cabeca.len();
        let ps = paragrafos(s, inicio, de);
        assert(aparado(t).len() == y - x);
        if x < y {
            assert(t.subrange(x, y) =~= s.subrange(inicio + x, inicio + y));
        }
        assert forall|k: int| 0 <= k < r.len() implies inicio <= (#[trigger] r[k]).0 < r[k].1
            <= s.len() && ps[k] == s.subrange(r[k].0, r[k].1) by {
            if k >= c {
                assert(r[k] == resto[k - c]);
                assert(ps[k] == paragrafos(s, de + 2, de + 2)[k - c]);
            }
        }
        assert forall|a: int, b: int| 0 <= a < b < r.len() implies ha_linha_em_branco(
            s,
            (#[trigger] r[a]).1,
            (#[trigger] r[b]).0,
        ) by {
            assert(r[b] == resto[b - c]);
            if a < c {
                assert(r[a].1 <= de && de + 2 <= r[b].0 && linha_em_branco(s, de));
            } else {
                assert(r[a] == resto[a - c]);
            }
        }
        assert forall|j: int| inicio <= j < s.len() implies espaco(#[trigger] s[j]) || exists|
            k: int,
        |
            0 <= k < r.len() && (#[trigger] r[k]).0 <= j < r[k].1 by {
            if j < de {
                assert(s[j] == t[j - inicio]);
                if x <= j - inicio < y {
                    assert(r[0].0 <= j < r[0].1);
                }
            } else if j >= de + 2 && !espaco(s[j]) {
                let k = choose|k: int|
                    0 <= k < resto.len() && (#[trigger] resto[k]).0 <= j < resto[k].1;
                assert(r[k + c] == resto[k]);
            }
        }
        r
    } else {
        lei_paragrafos_do_texto(s, inicio, de + 1)
    }
}

/// O bloco é a junção dos parágrafos de `i` até antes de `j`, e cabe no alvo ou é um
/// parágrafo só.
pub open spec fn bloco_dos_paragrafos(
    b: Seq<char>,
    ps: Seq<Seq<char>>,
    i: int,
    j: int,
    alvo: int,
) -> bool {
    &&& 0 <= i < j <= ps.len()
    &&& b == juntado(ps.subrange(i, j), "\n\n"@)
    &&& j == i + 1 || b.len() <= alvo
}

/// O parágrafo `j` não cabe mais no bloco.
pub open spec fn nao_cabe_mais(b: Seq<char>, ps: Seq<Seq<char>>, j: int, alvo: int) -> bool {
    0 <= j < ps.len() && b.len() + 2 + ps[j].len() > alvo
}

proof fn lema_cortes(ps: Seq<Seq<char>>, n: int, alvo: int) -> (c: Seq<int>)
    requires
        1 <= n <= ps.len(),
        forall|k: int| 0 <= k < ps.len() ==> limpa(#[trigger] ps[k]),
    ensures
        ({
            let (fechados, aberto) = empacotado(ps, n, alvo);
            &&& c.len() == fechados.len() + 1
            &&& c[0] == 0
            &&& forall|k: int|
                0 <= k < fechados.len() ==> bloco_dos_paragrafos(
                    #[trigger] fechados[k],
                    ps,
                    c[k],
                    c[k + 1],
                    alvo,
                ) && nao_cabe_mais(fechados[k], ps, c[k + 1], alvo)
            &&& bloco_dos_paragrafos(aberto, ps, c.last(), n, alvo)
        }),
    decreases n,
{
    reveal_strlit("\n\n");
    let p = ps[n - 1];
    assert(ps.subrange(n - 1, n) =~= seq![p]);
    if n == 1 {
        reveal_with_fuel(empacotado, 2);
        seq![0int]
    } else {
        let antes = lema_cortes(ps, n - 1, alvo);
        lema_aberto_limpo(ps, n - 1, alvo);
        let (fechados, aberto) = empacotado(ps, n - 1, alvo);
        lei_aparado(aberto);
        let u = antes.last();
        if aberto.len() + 2 + p.len() > alvo {
            let c = antes.push(n - 1);
            let novos = fechados.push(aberto);
            assert(empacotado(ps, n, alvo) == (novos, p));
            assert forall|k: int| 0 <= k < novos.len() implies bloco_dos_paragrafos(
                #[trigger] novos[k],
                ps,
                c[k],
                c[k + 1],
                alvo,
            ) && nao_cabe_mais(novos[k], ps, c[k + 1], alvo) by {
                if k < fechados.len() {
                    assert(novos[k] == fechados[k]);
                    assert(c[k] == antes[k] && c[k + 1] == antes[k + 1]);
                } else {
                    assert(c[k] == u && c[k + 1] == n - 1);
                }
            }
            c
        } else {
            assert(ps.subrange(u, n) =~= ps.subrange(u, n - 1).push(p));
            lema_juntado_parte(ps.subrange(u, n - 1), "\n\n"@, p);
            antes
        }
    }
}

/// Os blocos são a divisão gulosa dos parágrafos: sequências vizinhas, da primeira
/// à última; cada bloco cabe no alvo ou é um parágrafo só, e fecha porque o
/// parágrafo seguinte, com a linha em branco, já não caberia.
pub proof fn lei_blocos_gulosos(ps: Seq<Seq<char>>, alvo: int) -> (cortes: Seq<int>)
    requires
        forall|i: int| 0 <= i < ps.len() ==> limpa(#[trigger] ps[i]),
    ensures
        ({
            let bs = blocos(ps, alvo);
            &&& cortes.len() == bs.len() + 1
            &&& cortes[0] == 0
            &&& cortes.last() == ps.len()
            &&& forall|k: int|
                0 <= k < bs.len() ==> bloco_dos_paragrafos(
                    #[trigger] bs[k],
                    ps,
                    cortes[k],
                    cortes[k + 1],
                    alvo,
                ) && (k + 1 < bs.len() ==> nao_cabe_mais(bs[k], ps, cortes[k + 1], alvo))
        }),
{
    let n = ps.len() as int;
    if n == 0 {
        seq![0int]
    } else {
        let c = lema_cortes(ps, n, alvo);
        lema_aberto_limpo(ps, n, alvo);
        let (fechados, aberto) = empacotado(ps, n, alvo);
        lei_aparado(aberto);
        let r = c.push(n);
        let bs = blocos(ps, alvo);
        assert(bs == fechados.push(aberto));
        assert forall|k: int| 0 <= k < bs.len() implies bloco_dos_paragrafos(
            #[trigger] bs[k],
            ps,
            r[k],
            r[k + 1],
            alvo,
        ) && (k + 1 < bs.len() ==> nao_cabe_mais(bs[k], ps, r[k + 1], alvo)) by {
            if k < fechados.len() {
                assert(bs[k] == fechados[k]);
                assert(r[k] == c[k] && r[k + 1] == c[k + 1]);
            } else {
                assert(r[k] == c.last() && r[k + 1] == n);
            }
        }
        r
    }
}

/// Os trechos do SRD são, na ordem: um por condição, um por magia, e os das
/// seções; cada um com a sua categoria, o nome de que vem, e o texto.
pub proof fn lei_trechos_do_srd(
    condicoes: Seq<SrdCondition>,
    magias: Seq<SrdSpell>,
    secoes: Seq<SrdRuleSection>,
)
    ensures
        ({
            let r = trechos_do_srd(condicoes, magias, secoes);
            let c = condicoes.len();
            let m = magias.len();
            &&& r.len() == c + m + trechos_das_secoes(secoes).len()
            &&& forall|i: int|
                0 <= i < c ==> #[trigger] r[i] == (
                    "condicao"@,
                    condicoes[i].name@,
                    juntado(textos(condicoes[i].desc@), " "@),
                )
            &&& forall|i: int|
                c <= i < c + m ==> (#[trigger] r[i]).0 == "magia"@ && r[i].1 == magias[i - c].name@
                    && r[i].2 == texto_da_magia(magias[i - c])
            &&& r.skip((c + m) as int) == trechos_das_secoes(secoes)
        }),
{
    let r = trechos_do_srd(condicoes, magias, secoes);
    assert(r.skip((condicoes.len() + magias.len()) as int) =~= trechos_das_secoes(secoes));
}

/// Os trechos das seções vêm seção a seção; os de uma são os seus blocos de até
/// setecentos caracteres, na ordem, o primeiro com o nome da seção e os outros com
/// o número da parte.
pub proof fn lei_trechos_das_secoes(rs: Seq<SrdRuleSection>, r: SrdRuleSection)
    ensures
        trechos_das_secoes(Seq::empty()).len() == 0,
        trechos_das_secoes(rs.push(r)) == trechos_das_secoes(rs) + trechos_da_secao(r),
        ({
            let bs = blocos(paragrafos(r.desc@, 0, 0), 700);
            &&& trechos_da_secao(r).len() == bs.len()
            &&& forall|i: int|
                0 <= i < bs.len() ==> #[trigger] trechos_da_secao(r)[i] == (
                    "regra_geral"@,
                    if i == 0 {
                        r.name@
                    } else {
                        r.name@ + " (parte "@ + decimal(i + 1) + ")"@
                    },
                    bs[i],
                )
        }),
{
    assert(rs.push(r).drop_last() =~= rs);
}

/// O texto de uma magia diz o nome, o nível, a escola, as classes e a descrição; e
/// o que muda em níveis superiores só se acrescenta ao fim.
pub proof fn lei_texto_da_magia(s: SrdSpell, sem: SrdSpell)
    requires
        sem.name == s.name && sem.desc == s.desc && sem.level == s.level,
        sem.school == s.school && sem.classes == s.classes,
        sem.higher_level@.len() == 0,
        s.higher_level@.len() > 0,
    ensures
        texto_da_magia(sem) == s.name@ + " (nível "@ + decimal(s.level as int) + ", escola "@
            + s.school@ + ", classes: "@ + juntado(textos(s.classes@), ", "@) + "). "@ + juntado(
            textos(s.desc@),
            " "@,
        ),
        texto_da_magia(s) == texto_da_magia(sem) + (" Em níveis superiores: "@ + juntado(
            textos(s.higher_level@),
            " "@,
        )),
{
    let base = s.name@ + " (nível "@ + decimal(s.level as int) + ", escola "@ + s.school@
        + ", classes: "@ + juntado(textos(s.classes@), ", "@) + "). "@ + juntado(
        textos(s.desc@),
        " "@,
    );
    assert(base + Seq::<char>::empty() =~= base);
}

} // verus!
