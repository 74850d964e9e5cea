//! Texto: o que as regras do jogo fazem com cadeias de caracteres, enunciado
//! sobre a sequência de caracteres de cada cadeia.

use vstd::prelude::*;
use vstd::utf8::{encode_utf8, is_ascii_chars};

verus! {

/// `String::push` acrescenta um caractere ao fim da cadeia.
pub assume_specification[ String::push ](s: &mut String, c: char)
    ensures
        final(s)@ == old(s)@.push(c),
;

/// A cadeia em minúsculas, segundo o Unicode.
pub uninterp spec fn minusculas(s: Seq<char>) -> Seq<char>;

/// A minúscula de um caractere ASCII.
pub open spec fn minuscula_ascii(c: char) -> char {
    if 'A' <= c <= 'Z' {
        (c as u32 + 32) as char
    } else {
        c
    }
}

/// Uma cadeia ASCII em minúsculas, caractere a caractere.
pub open spec fn minusculas_ascii(s: Seq<char>) -> Seq<char> {
    s.map_values(|c: char| minuscula_ascii(c))
}

/// `str::to_lowercase` é uma função só da cadeia; numa cadeia ASCII troca
/// `A`–`Z` por `a`–`z` e deixa o resto.
pub assume_specification[ str::to_lowercase ](s: &str) -> (r: String)
    ensures
        r@ == minusculas(s@),
        is_ascii_chars(s@) ==> r@ == minusculas_ascii(s@),
;

/// O caractere é letra ou número, segundo o Unicode.
pub uninterp spec fn alfanumerico(c: char) -> bool;

/// `char::is_alphanumeric` é uma função só do caractere; entre os ASCII são
/// `0`–`9`, `A`–`Z` e `a`–`z`.
pub assume_specification[ char::is_alphanumeric ](c: char) -> (r: bool)
    ensures
        r == alfanumerico(c),
        (c as u32) < 128 ==> r == ('0' <= c <= '9' || 'A' <= c <= 'Z' || 'a' <= c <= 'z'),
;

// ---------------------------------------------------------------------------
// Igualdade e conversão
// ---------------------------------------------------------------------------

/// Os caracteres de cada cadeia de uma lista.
pub open spec fn textos(lista: Seq<String>) -> Seq<Seq<char>> {
    lista.map_values(|s: String| s@)
}

/// Compara duas cadeias caractere a caractere.
pub fn mesmo_texto(a: &str, b: &str) -> (igual: bool)
    ensures
        igual == (a@ == b@),
{
    let x = a.as_bytes();
    let y = b.as_bytes();
    proof {
        vstd::utf8::encode_utf8_decode_utf8(a@);
        vstd::utf8::encode_utf8_decode_utf8(b@);
    }
    if x.len() != y.len() {
        return false;
    }
    let mut i: usize = 0;
    while i < x.len()
        invariant
            i <= x@.len(),
            x@.len() == y@.len(),
            x@ == encode_utf8(a@),
            y@ == encode_utf8(b@),
            forall|j: int| 0 <= j < i ==> x@[j] == y@[j],
        decreases x@.len() - i,
    {
        if x[i] != y[i] {
            return false;
        }
        i += 1;
    }
    assert(x@ =~= y@);
    true
}

/// Se `alvo` está entre as cadeias da lista.
pub fn contem(lista: &[String], alvo: &str) -> (achou: bool)
    ensures
        achou == textos(lista@).contains(alvo@),
{
    let mut i: usize = 0;
    while i < lista.len()
        invariant
            i <= lista@.len(),
            forall|j: int| 0 <= j < i ==> (#[trigger] textos(lista@)[j]) != alvo@,
        decreases lista@.len() - i,
    {
        if mesmo_texto(lista[i].as_str(), alvo) {
            assert(textos(lista@)[i as int] == alvo@);
            return true;
        }
        i += 1;
    }
    false
}

/// Os caracteres de uma cadeia, um a um.
pub fn para_chars(s: &str) -> (r: Vec<char>)
    ensures
        r@ == s@,
{
    let mut r: Vec<char> = Vec::new();
    for c in it: s.chars()
        invariant
            r@ == it.seq().take(it.index() as int),
            it.seq() == s@,
    {
        r.push(c);
    }
    r
}

// ---------------------------------------------------------------------------
// Espaço em branco
// ---------------------------------------------------------------------------

/// Os caracteres com a propriedade Unicode `White_Space`.
pub open spec fn espaco(c: char) -> bool {
    let n = c as u32;
    ||| 0x09 <= n <= 0x0d
    ||| n == 0x20
    ||| n == 0x85
    ||| n == 0xa0
    ||| n == 0x1680
    ||| 0x2000 <= n <= 0x200a
    ||| n == 0x2028
    ||| n == 0x2029
    ||| n == 0x202f
    ||| n == 0x205f
    ||| n == 0x3000
}

/// Uma cadeia sem nada além de espaço em branco.
pub open spec fn em_branco(s: Seq<char>) -> bool {
    forall|i: int| 0 <= i < s.len() ==> espaco(#[trigger] s[i])
}

/// `s` sem o espaço em branco do começo.
pub open spec fn sem_margem_esquerda(s: Seq<char>) -> Seq<char>
    decreases s.len(),
{
    if s.len() > 0 && espaco(s[0]) {
        sem_margem_esquerda(s.drop_first())
    } else {
        s
    }
}

/// `s` sem o espaço em branco do fim.
pub open spec fn sem_margem_direita(s: Seq<char>) -> Seq<char>
    decreases s.len(),
{
    if s.len() > 0 && espaco(s.last()) {
        sem_margem_direita(s.drop_last())
    } else {
        s
    }
}

/// `s` sem o espaço em branco das duas pontas.
pub open spec fn aparado(s: Seq<char>) -> Seq<char> {
    sem_margem_direita(sem_margem_esquerda(s))
}

/// Se o caractere é espaço em branco.
pub fn eh_espaco(c: char) -> (r: bool)
    ensures
        r == espaco(c),
{
    let n: u32 = c as u32;
    (0x09 <= n && n <= 0x0d) || n == 0x20 || n == 0x85 || n == 0xa0 || n == 0x1680 || (0x2000 <= n
        && n <= 0x200a) || n == 0x2028 || n == 0x2029 || n == 0x202f || n == 0x205f || n == 0x3000
}

/// Se a cadeia não tem nada além de espaço em branco.
pub fn so_espaco(s: &str) -> (r: bool)
    ensures
        r == em_branco(s@),
{
    let cs = para_chars(s);
    let mut i: usize = 0;
    while i < cs.len()
        invariant
            i <= cs@.len(),
            cs@ == s@,
            forall|j: int| 0 <= j < i ==> espaco(#[trigger] s@[j]),
        decreases cs@.len() - i,
    {
        if !eh_espaco(cs[i]) {
            return false;
        }
        i += 1;
    }
    true
}

proof fn lema_margem_esquerda(s: Seq<char>, k: int)
    requires
        0 <= k <= s.len(),
        forall|j: int| 0 <= j < k ==> espaco(#[trigger] s[j]),
    ensures
        sem_margem_esquerda(s) == sem_margem_esquerda(s.skip(k)),
    decreases k,
{
    if k > 0 {
        let t = s.drop_first();
        assert(espaco(s[0]));
        assert forall|j: int| 0 <= j < k - 1 implies espaco(#[trigger] t[j]) by {
            assert(t[j] == s[j + 1]);
        }
        lema_margem_esquerda(t, k - 1);
        assert(t.skip(k - 1) =~= s.skip(k));
    } else {
        assert(s.skip(0) =~= s);
    }
}

proof fn lema_margem_direita(s: Seq<char>, k: int)
    requires
        0 <= k <= s.len(),
        forall|j: int| k <= j < s.len() ==> espaco(#[trigger] s[j]),
    ensures
        sem_margem_direita(s) == sem_margem_direita(s.take(k)),
    decreases s.len() - k,
{
    if k < s.len() {
        let t = s.drop_last();
        lema_margem_direita(t, k);
        assert(t.take(k) =~= s.take(k));
    } else {
        assert(s.take(k) =~= s);
    }
}

/// Uma cadeia aparada é vazia exatamente quando só tinha espaço em branco.
pub proof fn lei_aparado_vazio(s: Seq<char>)
    ensures
        aparado(s).len() == 0 <==> em_branco(s),
{
    lema_aparado_vazio_esquerda(s);
    let t = sem_margem_esquerda(s);
    lema_primeiro_nao_espaco(s);
    lema_direita_guarda_nao_espaco(t);
}

proof fn lema_aparado_vazio_esquerda(s: Seq<char>)
    ensures
        sem_margem_esquerda(s).len() == 0 <==> em_branco(s),
    decreases s.len(),
{
    if s.len() > 0 && espaco(s[0]) {
        let t = s.drop_first();
        lema_aparado_vazio_esquerda(t);
        if em_branco(t) {
            assert forall|i: int| 0 <= i < s.len() implies espaco(#[trigger] s[i]) by {
                if i > 0 {
                    assert(t[i - 1] == s[i]);
                }
            }
        }
        if em_branco(s) {
            assert forall|i: int| 0 <= i < t.len() implies espaco(#[trigger] t[i]) by {
                assert(t[i] == s[i + 1]);
            }
        }
    }
}

proof fn lema_primeiro_nao_espaco(s: Seq<char>)
    ensures
        sem_margem_esquerda(s).len() > 0 ==> !espaco(sem_margem_esquerda(s)[0]),
    decreases s.len(),
{
    if s.len() > 0 && espaco(s[0]) {
        lema_primeiro_nao_espaco(s.drop_first());
    }
}

proof fn lema_direita_guarda_nao_espaco(s: Seq<char>)
    requires
        s.len() > 0 ==> !espaco(s[0]),
    ensures
        sem_margem_direita(s).len() == 0 <==> s.len() == 0,
    decreases s.len(),
{
    if s.len() > 0 && espaco(s.last()) {
        assert(s.len() > 1);
        lema_direita_guarda_nao_espaco(s.drop_last());
    }
}

/// Uma cadeia que começa e acaba fora do espaço em branco.
pub open spec fn limpa(s: Seq<char>) -> bool {
    s.len() > 0 && !espaco(s[0]) && !espaco(s.last())
}

proof fn lema_direita_limpa(s: Seq<char>)
    requires
        s.len() > 0 ==> !espaco(s[0]),
    ensures
        sem_margem_direita(s).len() > 0 ==> limpa(sem_margem_direita(s)),
    decreases s.len(),
{
    if s.len() > 0 && espaco(s.last()) {
        assert(s.len() > 1);
        lema_direita_limpa(s.drop_last());
    }
}

/// Uma cadeia aparada é vazia ou não tem espaço nas pontas, e aparar uma que não
/// tem não muda nada.
pub proof fn lei_aparado(s: Seq<char>)
    ensures
        aparado(s).len() > 0 ==> limpa(aparado(s)),
        limpa(s) ==> aparado(s) == s,
{
    lema_primeiro_nao_espaco(s);
    lema_direita_limpa(sem_margem_esquerda(s));
}

/// A cadeia sem o espaço em branco das duas pontas.
pub fn apara<'a>(s: &'a str) -> (r: &'a str)
    ensures
        r@ == aparado(s@),
{
    let cs = para_chars(s);
    let mut a: usize = 0;
    while a < cs.len() && eh_espaco(cs[a])
        invariant
            a <= cs@.len(),
            cs@ == s@,
            forall|j: int| 0 <= j < a ==> espaco(#[trigger] s@[j]),
        decreases cs@.len() - a,
    {
        a += 1;
    }
    let mut b: usize = cs.len();
    while a < b && eh_espaco(cs[b - 1])
        invariant
            a <= b <= cs@.len(),
            cs@ == s@,
            forall|j: int| b <= j < s@.len() ==> espaco(#[trigger] s@[j]),
        decreases b,
    {
        b -= 1;
    }
    proof {
        let t = s@.skip(a as int);
        lema_margem_esquerda(s@, a as int);
        assert(t.len() > 0 ==> t[0] == s@[a as int]);
        assert(sem_margem_esquerda(s@) == t);
        assert forall|j: int| b - a <= j < t.len() implies espaco(#[trigger] t[j]) by {
            assert(t[j] == s@[j + a]);
        }
        lema_margem_direita(t, b - a);
        let u = t.take(b - a);
        assert(u =~= s@.subrange(a as int, b as int));
        assert(u.len() > 0 ==> u.last() == s@[b - 1]);
    }
    s.substring_char(a, b)
}

// ---------------------------------------------------------------------------
// Junção
// ---------------------------------------------------------------------------

/// As partes, na ordem, com `sep` entre cada duas.
pub open spec fn juntado(partes: Seq<Seq<char>>, sep: Seq<char>) -> Seq<char>
    decreases partes.len(),
{
    if partes.len() == 0 {
        Seq::empty()
    } else if partes.len() == 1 {
        partes[0]
    } else {
        juntado(partes.drop_last(), sep) + sep + partes.last()
    }
}

/// Juntar uma parte a mais é pô-la no fim, depois do separador se há outras.
pub proof fn lema_juntado_parte(ps: Seq<Seq<char>>, sep: Seq<char>, p: Seq<char>)
    ensures
        juntado(ps.push(p), sep) == (if ps.len() == 0 {
            p
        } else {
            juntado(ps, sep) + sep + p
        }),
{
    let qs = ps.push(p);
    assert(qs.drop_last() =~= ps);
}

/// Junta as cadeias, na ordem, com `sep` entre cada duas.
pub fn juntar(partes: &[String], sep: &str) -> (r: String)
    ensures
        r@ == juntado(textos(partes@), sep@),
{
    let mut r = String::new();
    let mut i: usize = 0;
    let ghost ts = textos(partes@);
    while i < partes.len()
        invariant
            i <= partes@.len(),
            ts == textos(partes@),
            r@ == juntado(ts.take(i as int), sep@),
        decreases partes@.len() - i,
    {
        if i > 0 {
            r.append(sep);
        }
        r.append(partes[i].as_str());
        proof {
            let agora = ts.take(i + 1);
            assert(agora.drop_last() =~= ts.take(i as int));
            assert(agora.last() == partes@[i as int]@);
            if i == 0 {
                assert(r@ =~= agora[0]);
            } else {
                assert(r@ =~= juntado(ts.take(i as int), sep@) + sep@ + agora.last());
            }
        }
        i += 1;
    }
    assert(ts.take(i as int) =~= ts);
    r
}

// ---------------------------------------------------------------------------
// Números por extenso em algarismos
// ---------------------------------------------------------------------------

/// O algarismo `0`–`9`, `a`–`f` de valor `d`.
pub open spec fn algarismo(d: int) -> char {
    if d < 10 {
        (48 + d) as char
    } else {
        (87 + d) as char
    }
}

/// O numeral de `n` na base `base`, sem zeros à esquerda.
pub open spec fn numeral(n: int, base: int) -> Seq<char>
    decreases n,
    when base >= 2
{
    if n < base {
        seq![algarismo(n)]
    } else {
        proof {
            assert(0 <= n / base < n) by (nonlinear_arith)
                requires
                    base >= 2,
                    n >= base,
            ;
        }
        numeral(n / base, base).push(algarismo(n % base))
    }
}

/// O numeral decimal de `n`.
pub open spec fn decimal(n: int) -> Seq<char> {
    numeral(n, 10)
}

/// O numeral hexadecimal de `n`, em minúsculas.
pub open spec fn hexadecimal(n: int) -> Seq<char> {
    numeral(n, 16)
}

fn algarismo_de(d: u64) -> (c: char)
    requires
        d < 16,
    ensures
        c == algarismo(d as int),
{
    let n: u8 = d as u8;
    if n < 10 {
        (48 + n) as char
    } else {
        (87 + n) as char
    }
}

/// Escreve `n` na base `base`.
pub fn escreve_numeral(n: u64, base: u64) -> (r: String)
    requires
        2 <= base <= 16,
    ensures
        r@ == numeral(n as int, base as int),
    decreases n,
{
    if n < base {
        let mut r = String::new();
        r.push(algarismo_de(n));
        assert(r@ =~= seq![algarismo(n as int)]);
        r
    } else {
        assert(n / base < n) by (nonlinear_arith)
            requires
                2 <= base,
                n >= base,
        ;
        let mut r = escreve_numeral(n / base, base);
        r.push(algarismo_de(n % base));
        r
    }
}

/// Escreve `n` em decimal.
pub fn escreve_decimal(n: u64) -> (r: String)
    ensures
        r@ == decimal(n as int),
{
    escreve_numeral(n, 10)
}

// ---------------------------------------------------------------------------
// Leis do texto
// ---------------------------------------------------------------------------

/// Escolher os elementos de uma lista que passam num teste é escolher posições
/// dela: em ordem crescente, todas as que passam e nenhuma outra.
pub proof fn lei_filtro<T>(s: Seq<T>, teste: spec_fn(T) -> bool) -> (posicoes: Seq<int>)
    ensures
        posicoes.len() == s.filter(teste).len(),
        forall|k: int|
            0 <= k < posicoes.len() ==> 0 <= #[trigger] posicoes[k] < s.len() && teste(
                s[posicoes[k]],
            ) && s.filter(teste)[k] == s[posicoes[k]],
        forall|a: int, b: int|
            0 <= a < b < posicoes.len() ==> #[trigger] posicoes[a] < #[trigger] posicoes[b],
        forall|i: int| 0 <= i < s.len() && teste(#[trigger] s[i]) ==> posicoes.contains(i),
    decreases s.len(),
{
    reveal(Seq::filter);
    if s.len() == 0 {
        Seq::empty()
    } else {
        let resto = s.drop_last();
        let antes = lei_filtro(resto, teste);
        let n = s.len() - 1;
        let r = if teste(s.last()) {
            antes.push(n)
        } else {
            antes
        };
        assert forall|k: int| 0 <= k < r.len() implies 0 <= #[trigger] r[k] < s.len() && teste(
            s[r[k]],
        ) && s.filter(teste)[k] == s[r[k]] by {
            if k < antes.len() {
                assert(r[k] == antes[k]);
                assert(resto[antes[k]] == s[antes[k]]);
            }
        }
        assert forall|a: int, b: int| 0 <= a < b < r.len() implies #[trigger] r[a] < #[trigger] r[
            b] by {
            assert(r[a] == antes[a]);
            if b < antes.len() {
                assert(r[b] == antes[b]);
            }
        }
        assert forall|i: int| 0 <= i < s.len() && teste(#[trigger] s[i]) implies r.contains(i) by {
            if i < n {
                assert(resto[i] == s[i]);
                assert(antes.contains(i));
                let k = choose|k: int| 0 <= k < antes.len() && antes[k] == i;
                assert(r[k] == i);
            } else {
                assert(r[antes.len() as int] == i);
            }
        }
        r
    }
}

/// Os espaços em branco são estes caracteres e nenhum outro.
pub proof fn lei_espaco(c: char)
    ensures
        espaco(c) <==> seq![
            '\u{9}',
            '\u{a}',
            '\u{b}',
            '\u{c}',
            '\u{d}',
            '\u{20}',
            '\u{85}',
            '\u{a0}',
            '\u{1680}',
            '\u{2000}',
            '\u{2001}',
            '\u{2002}',
            '\u{2003}',
            '\u{2004}',
            '\u{2005}',
            '\u{2006}',
            '\u{2007}',
            '\u{2008}',
            '\u{2009}',
            '\u{200a}',
            '\u{2028}',
            '\u{2029}',
            '\u{202f}',
            '\u{205f}',
            '\u{3000}',
        ].contains(c),
{
    let todos = seq![
        '\u{9}',
        '\u{a}',
        '\u{b}',
        '\u{c}',
        '\u{d}',
        '\u{20}',
        '\u{85}',
        '\u{a0}',
        '\u{1680}',
        '\u{2000}',
        '\u{2001}',
        '\u{2002}',
        '\u{2003}',
        '\u{2004}',
        '\u{2005}',
        '\u{2006}',
        '\u{2007}',
        '\u{2008}',
        '\u{2009}',
        '\u{200a}',
        '\u{2028}',
        '\u{2029}',
        '\u{202f}',
        '\u{205f}',
        '\u{3000}',
    ];
    if espaco(c) {
        let n = c as u32;
        let k: int = if n <= 0x0d {
            n - 0x09
        } else if n == 0x20 {
            5
        } else if n == 0x85 {
            6
        } else if n == 0xa0 {
            7
        } else if n == 0x1680 {
            8
        } else if n <= 0x200a {
            n - 0x2000 + 9
        } else if n == 0x2028 {
            20
        } else if n == 0x2029 {
            21
        } else if n == 0x202f {
            22
        } else if n == 0x205f {
            23
        } else {
            24
        };
        assert(todos[k] == c);
    }
}

proof fn lema_so_tira_da_esquerda(s: Seq<char>) -> (a: int)
    ensures
        0 <= a <= s.len(),
        sem_margem_esquerda(s) == s.skip(a),
        forall|j: int| 0 <= j < a ==> espaco(#[trigger] s[j]),
    decreases s.len(),
{
    if s.len() > 0 && espaco(s[0]) {
        let t = s.drop_first();
        let a = lema_so_tira_da_esquerda(t);
        assert(t.skip(a) =~= s.skip(a + 1));
        assert forall|j: int| 0 <= j < a + 1 implies espaco(#[trigger] s[j]) by {
            if j > 0 {
                assert(t[j - 1] == s[j]);
            }
        }
        a + 1
    } else {
        assert(s.skip(0) =~= s);
        0
    }
}

proof fn lema_so_tira_da_direita(s: Seq<char>) -> (b: int)
    ensures
        0 <= b <= s.len(),
        sem_margem_direita(s) == s.take(b),
        forall|j: int| b <= j < s.len() ==> espaco(#[trigger] s[j]),
    decreases s.len(),
{
    if s.len() > 0 && espaco(s.last()) {
        let t = s.drop_last();
        let b = lema_so_tira_da_direita(t);
        assert(t.take(b) =~= s.take(b));
        assert forall|j: int| b <= j < s.len() implies espaco(#[trigger] s[j]) by {
            if j < t.len() {
                assert(t[j] == s[j]);
            }
        }
        b
    } else {
        assert(s.take(s.len() as int) =~= s);
        s.len() as int
    }
}

/// Aparar só tira espaço em branco, e só das pontas: o que fica é um pedaço do
/// texto, e tudo que está antes ou depois dele é espaço.
pub proof fn lei_aparar_so_tira_espaco(s: Seq<char>) -> (r: (int, int))
    ensures
        0 <= r.0 <= r.1 <= s.len(),
        aparado(s) == s.subrange(r.0, r.1),
        forall|j: int| 0 <= j < r.0 || r.1 <= j < s.len() ==> espaco(#[trigger] s[j]),
        r.0 < r.1 ==> !espaco(s[r.0]) && !espaco(s[r.1 - 1]),
{
    let a = lema_so_tira_da_esquerda(s);
    let t = s.skip(a);
    let b = lema_so_tira_da_direita(t);
    assert(t.take(b) =~= s.subrange(a, a + b));
    assert forall|j: int| 0 <= j < a || a + b <= j < s.len() implies espaco(#[trigger] s[j]) by {
        if j >= a {
            assert(t[j - a] == s[j]);
        }
    }
    lei_aparado(s);
    (a, a + b)
}

/// Juntar nada dá o texto vazio; juntar uma parte dá essa parte; e cada parte a
/// mais entra no fim, depois de um separador.
pub proof fn lei_juntado(ps: Seq<Seq<char>>, sep: Seq<char>, p: Seq<char>)
    ensures
        juntado(Seq::empty(), sep).len() == 0,
        juntado(seq![p], sep) == p,
        ps.len() > 0 ==> juntado(ps.push(p), sep) == juntado(ps, sep) + sep + p,
{
    lema_juntado_parte(ps, sep, p);
}

/// `t` está em `s`, inteiro.
pub open spec fn tem_trecho(s: Seq<char>, t: Seq<char>) -> bool {
    exists|i: int|
        0 <= i && i + t.len() <= s.len() && #[trigger] s.subrange(i, i + t.len()) == t
}

/// O que está no meio de um texto está no texto.
pub proof fn lema_tem_meio(a: Seq<char>, t: Seq<char>, b: Seq<char>)
    ensures
        tem_trecho(a + t + b, t),
{
    assert((a + t + b).subrange(a.len() as int, a.len() as int + t.len()) =~= t);
}

/// Estar num trecho de um texto é estar no texto.
pub proof fn lema_tem_trecho_de_trecho(s: Seq<char>, t: Seq<char>, u: Seq<char>)
    requires
        tem_trecho(s, t),
        tem_trecho(t, u),
    ensures
        tem_trecho(s, u),
{
    let i = choose|i: int|
        0 <= i && i + t.len() <= s.len() && #[trigger] s.subrange(i, i + t.len()) == t;
    let j = choose|j: int|
        0 <= j && j + u.len() <= t.len() && #[trigger] t.subrange(j, j + u.len()) == u;
    assert(s.subrange(i + j, i + j + u.len()) =~= u) by {
        assert(s.subrange(i, i + t.len()).subrange(j, j + u.len()) =~= s.subrange(
            i + j,
            i + j + u.len(),
        ));
    }
}

/// Cada parte está no texto em que as partes se juntam.
pub proof fn lei_juntado_tem_as_partes(ps: Seq<Seq<char>>, sep: Seq<char>, k: int)
    requires
        0 <= k < ps.len(),
    ensures
        tem_trecho(juntado(ps, sep), ps[k]),
    decreases ps.len(),
{
    let s = juntado(ps, sep);
    if ps.len() == 1 {
        lema_tem_meio(Seq::empty(), ps[0], Seq::empty());
        assert(Seq::<char>::empty() + ps[0] + Seq::<char>::empty() =~= s);
    } else if k == ps.len() - 1 {
        let antes = juntado(ps.drop_last(), sep) + sep;
        lema_tem_meio(antes, ps[k], Seq::empty());
        assert(antes + ps[k] + Seq::<char>::empty() =~= s);
    } else {
        let antes = juntado(ps.drop_last(), sep);
        lei_juntado_tem_as_partes(ps.drop_last(), sep, k);
        lema_tem_meio(Seq::empty(), antes, sep + ps.last());
        assert(Seq::<char>::empty() + antes + (sep + ps.last()) =~= s);
        lema_tem_trecho_de_trecho(s, antes, ps[k]);
    }
}

/// O valor de um algarismo.
pub open spec fn valor_do_algarismo(c: char) -> int {
    if '0' <= c <= '9' {
        c as int - '0' as int
    } else {
        c as int - 'a' as int + 10
    }
}

/// O número que uma sequência de algarismos escreve.
pub open spec fn numero_escrito(s: Seq<char>, base: int) -> int
    decreases s.len(),
{
    if s.len() == 0 {
        0
    } else {
        numero_escrito(s.drop_last(), base) * base + valor_do_algarismo(s.last())
    }
}

/// O numeral de um número, lido, é o número; não começa por zero, salvo o do
/// próprio zero, e só tem algarismos da base.
pub proof fn lei_numeral(n: int, base: int)
    requires
        2 <= base <= 16,
        0 <= n,
    ensures
        numero_escrito(numeral(n, base), base) == n,
        numeral(n, base).len() > 0,
        n > 0 ==> numeral(n, base)[0] != '0',
        n == 0 ==> numeral(n, base) == seq!['0'],
        forall|i: int|
            0 <= i < numeral(n, base).len() ==> 0 <= valor_do_algarismo(
                #[trigger] numeral(n, base)[i],
            ) < base && ('0' <= numeral(n, base)[i] <= '9' || 'a' <= numeral(n, base)[i] <= 'f'),
    decreases n,
{
    reveal_with_fuel(numero_escrito, 2);
    let s = numeral(n, base);
    if n < base {
        assert(s.drop_last() =~= Seq::<char>::empty());
        if n == 0 {
            assert(s =~= seq!['0']);
        }
    } else {
        assert(0 <= n / base < n && 0 <= n % base < base && n == (n / base) * base + n % base
            && n / base > 0) by (nonlinear_arith)
            requires
                2 <= base,
                n >= base,
        ;
        let t = numeral(n / base, base);
        lei_numeral(n / base, base);
        assert(s.drop_last() =~= t);
        assert(s[0] == t[0]);
        assert forall|i: int| 0 <= i < s.len() implies 0 <= valor_do_algarismo(#[trigger] s[i])
            < base && ('0' <= s[i] <= '9' || 'a' <= s[i] <= 'f') by {
            if i < t.len() {
                assert(s[i] == t[i]);
            }
        }
    }
}

/// O decimal se lê na base dez e o hexadecimal na base dezesseis.
pub proof fn lei_bases(n: int)
    requires
        0 <= n,
    ensures
        numero_escrito(decimal(n), 10) == n,
        numero_escrito(hexadecimal(n), 16) == n,
        forall|i: int| 0 <= i < decimal(n).len() ==> '0' <= #[trigger] decimal(n)[i] <= '9',
{
    lei_numeral(n, 10);
    lei_numeral(n, 16);
}

} // verus!
