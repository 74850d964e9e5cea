//! Saída estruturada de um modelo: modelos locais não garantem JSON puro, às
//! vezes o envolvem em texto. Aqui se recorta o primeiro objeto antes de lê-lo.

use crate::texto::para_chars;
use vstd::prelude::*;

verus! {

/// A posição do primeiro `c`, a partir de `de`.
pub open spec fn primeira(s: Seq<char>, c: char, de: int) -> Option<int>
    decreases s.len() - de,
{
    if de >= s.len() {
        None
    } else if s[de] == c {
        Some(de)
    } else {
        primeira(s, c, de + 1)
    }
}

/// Onde uma leitura está dentro de um objeto: quantas chaves estão abertas, se
/// está dentro de um texto entre aspas, e se o caractere anterior desse texto é
/// uma barra de escape.
pub struct Leitura {
    pub abertas: nat,
    pub em_texto: bool,
    pub escapado: bool,
}

/// A leitura depois de um caractere. Dentro de um texto as chaves não contam.
pub open spec fn depois_de(l: Leitura, c: char) -> Leitura {
    if l.em_texto {
        if l.escapado {
            Leitura { escapado: false, ..l }
        } else {
            Leitura { em_texto: c != '"', escapado: c == '\\', ..l }
        }
    } else if c == '"' {
        Leitura { em_texto: true, ..l }
    } else if c == '{' {
        Leitura { abertas: l.abertas + 1, ..l }
    } else if c == '}' && l.abertas > 0 {
        Leitura { abertas: (l.abertas - 1) as nat, ..l }
    } else {
        l
    }
}

/// A posição da chave que fecha a primeira aberta, numa leitura que chegou a
/// `i` no estado `l`.
pub open spec fn fecho(s: Seq<char>, i: int, l: Leitura) -> Option<int>
    decreases s.len() - i,
{
    if i >= s.len() {
        None
    } else if depois_de(l, s[i]).abertas == 0 {
        Some(i)
    } else {
        fecho(s, i + 1, depois_de(l, s[i]))
    }
}

/// A leitura antes da primeira chave.
pub open spec fn no_comeco() -> Leitura {
    Leitura { abertas: 0, em_texto: false, escapado: false }
}

/// O primeiro objeto `{...}` do texto: da primeira chave que abre à que a
/// fecha. Sem uma que abra, ou sem a que a feche, não há objeto.
pub open spec fn recorte(s: Seq<char>) -> Option<Seq<char>> {
    match primeira(s, '{', 0) {
        None => None,
        Some(inicio) => match fecho(s, inicio, no_comeco()) {
            None => None,
            Some(fim) => Some(s.subrange(inicio, fim + 1)),
        },
    }
}

fn achar_fecho(cs: &Vec<char>, inicio: usize) -> (r: Option<usize>)
    requires
        inicio < cs@.len(),
        cs@[inicio as int] == '{',
    ensures
        match r {
            Some(f) => fecho(cs@, inicio as int, no_comeco()) == Some(f as int) && inicio <= f
                < cs@.len(),
            None => fecho(cs@, inicio as int, no_comeco()) is None,
        },
{
    let mut abertas: usize = 0;
    let mut em_texto = false;
    let mut escapado = false;
    let mut i: usize = inicio;
    let ghost mut l = no_comeco();
    while i < cs.len()
        invariant
            inicio <= i <= cs@.len(),
            cs@[inicio as int] == '{',
            l == (Leitura { abertas: abertas as nat, em_texto, escapado }),
            abertas <= i - inicio,
            fecho(cs@, inicio as int, no_comeco()) == fecho(cs@, i as int, l),
        decreases cs@.len() - i,
    {
        let c = cs[i];
        if em_texto {
            if escapado {
                escapado = false;
            } else {
                em_texto = c != '"';
                escapado = c == '\\';
            }
        } else if c == '"' {
            em_texto = true;
        } else if c == '{' {
            abertas += 1;
        } else if c == '}' && abertas > 0 {
            abertas -= 1;
        }
        proof {
            l = depois_de(l, c);
        }
        if abertas == 0 {
            return Some(i);
        }
        i += 1;
    }
    None
}

/// O primeiro objeto `{...}` da resposta, sem o texto em volta.
pub fn extrair_json<'a>(resposta: &'a str) -> (r: Option<&'a str>)
    ensures
        match r {
            Some(s) => recorte(resposta@) == Some(s@),
            None => recorte(resposta@) is None,
        },
{
    let cs = para_chars(resposta);
    let mut inicio: usize = 0;
    while inicio < cs.len() && cs[inicio] != '{'
        invariant
            inicio <= cs@.len(),
            primeira(cs@, '{', 0) == primeira(cs@, '{', inicio as int),
        decreases cs@.len() - inicio,
    {
        inicio += 1;
    }
    if inicio == cs.len() {
        return None;
    }
    match achar_fecho(&cs, inicio) {
        Some(fim) => Some(resposta.substring_char(inicio, fim + 1)),
        None => None,
    }
}

/// O texto é um objeto inteiro: começa numa chave, e a que a fecha é o seu
/// último caractere.
pub open spec fn objeto_inteiro(s: Seq<char>) -> bool {
    s.len() > 0 && s[0] == '{' && fecho(s, 0, no_comeco()) == Some(s.len() - 1)
}

/// De uma resposta com um objeto inteiro, sem chave que abra antes dele, sai
/// esse objeto, seja o que for que venha depois: texto, chaves ou outro objeto.
pub proof fn lei_recorte_ignora_moldura(antes: Seq<char>, objeto: Seq<char>, depois: Seq<char>)
    requires
        !antes.contains('{'),
        objeto_inteiro(objeto),
    ensures
        recorte(antes + objeto + depois) == Some(objeto),
{
    let s = antes + objeto + depois;
    lema_primeira(s, '{', 0, antes.len() as int);
    lema_fecho_deslocado(s, objeto, antes.len() as int, 0, no_comeco());
    assert(s.subrange(antes.len() as int, (antes.len() + objeto.len()) as int) =~= objeto);
}

/// O que se recorta é sempre um objeto inteiro, e recortar de novo não muda
/// nada.
pub proof fn lei_recorte_e_objeto(s: Seq<char>)
    ensures
        recorte(s) matches Some(o) ==> objeto_inteiro(o) && recorte(o) == Some(o),
{
    match primeira(s, '{', 0) {
        Some(p) => {
            lema_posicao_da_primeira(s, '{', 0);
            match fecho(s, p, no_comeco()) {
                Some(f) => {
                    lema_fecho_dentro(s, p, no_comeco());
                    let o = s.subrange(p, f + 1);
                    lema_fecho_no_recorte(s, o, p, 0, no_comeco());
                    lei_recorte_ignora_moldura(Seq::empty(), o, Seq::empty());
                    assert(Seq::<char>::empty() + o + Seq::<char>::empty() =~= o);
                },
                None => {},
            }
        },
        None => {},
    }
}

proof fn lema_posicao_da_primeira(s: Seq<char>, c: char, de: int)
    requires
        0 <= de,
    ensures
        primeira(s, c, de) matches Some(p) ==> de <= p < s.len() && s[p] == c,
    decreases s.len() - de,
{
    if de < s.len() && s[de] != c {
        lema_posicao_da_primeira(s, c, de + 1);
    }
}

proof fn lema_primeira(s: Seq<char>, c: char, de: int, p: int)
    requires
        0 <= de <= p < s.len(),
        s[p] == c,
        forall|j: int| de <= j < p ==> s[j] != c,
    ensures
        primeira(s, c, de) == Some(p),
    decreases p - de,
{
    if de < p {
        lema_primeira(s, c, de + 1, p);
    }
}

proof fn lema_fecho_dentro(s: Seq<char>, i: int, l: Leitura)
    requires
        0 <= i,
    ensures
        fecho(s, i, l) matches Some(f) ==> i <= f < s.len(),
    decreases s.len() - i,
{
    if i < s.len() && depois_de(l, s[i]).abertas != 0 {
        lema_fecho_dentro(s, i + 1, depois_de(l, s[i]));
    }
}

/// Uma chave que fecha dentro de `o` fecha no mesmo lugar onde `o` está em `s`.
proof fn lema_fecho_deslocado(s: Seq<char>, o: Seq<char>, p: int, i: int, l: Leitura)
    requires
        0 <= p,
        0 <= i,
        p + o.len() <= s.len(),
        forall|j: int| 0 <= j < o.len() ==> s[p + j] == #[trigger] o[j],
    ensures
        fecho(o, i, l) matches Some(f) ==> fecho(s, p + i, l) == Some(p + f),
    decreases o.len() - i,
{
    if i < o.len() {
        assert(s[p + i] == o[i]);
        if depois_de(l, o[i]).abertas != 0 {
            lema_fecho_deslocado(s, o, p, i + 1, depois_de(l, o[i]));
        }
    }
}

/// A chave que fecha em `s` fecha no recorte que acaba nela.
proof fn lema_fecho_no_recorte(s: Seq<char>, o: Seq<char>, p: int, i: int, l: Leitura)
    requires
        0 <= p,
        0 <= i < o.len(),
        p + o.len() <= s.len(),
        o == s.subrange(p, p + o.len()),
        fecho(s, p + i, l) == Some(p + o.len() - 1),
    ensures
        fecho(o, i, l) == Some(o.len() - 1),
    decreases o.len() - i,
{
    assert(s[p + i] == o[i]);
    if depois_de(l, o[i]).abertas != 0 {
        lema_fecho_dentro(s, p + i + 1, depois_de(l, o[i]));
        lema_fecho_no_recorte(s, o, p, i + 1, depois_de(l, o[i]));
    }
}

// ---------------------------------------------------------------------------
// Leis do recorte, sobre as chaves do texto
// ---------------------------------------------------------------------------

/// Sem chave que abra não há objeto; e o que se recorta é um pedaço da resposta
/// que começa na primeira chave que abre e acaba numa que fecha.
pub proof fn lei_recorte_e_pedaco(s: Seq<char>) -> (p: int)
    ensures
        !s.contains('{') ==> recorte(s) is None,
        recorte(s) matches Some(o) ==> {
            &&& 0 <= p && p + o.len() <= s.len()
            &&& s.subrange(p, p + o.len()) == o
            &&& o.len() >= 2
            &&& o[0] == '{'
            &&& o.last() == '}'
            &&& forall|j: int| 0 <= j < p ==> s[j] != '{'
        },
{
    lema_posicao_da_primeira(s, '{', 0);
    lema_nada_antes_da_primeira(s, '{', 0);
    match primeira(s, '{', 0) {
        Some(p) => {
            match fecho(s, p, no_comeco()) {
                Some(f) => {
                    lema_fecho_dentro(s, p, no_comeco());
                    lema_fecha_numa_chave(s, p, no_comeco());
                    let o = s.subrange(p, f + 1);
                    assert(s.subrange(p, p + o.len()) =~= o);
                    assert(o.last() == s[f]);
                },
                None => {},
            }
            p
        },
        None => 0,
    }
}

proof fn lema_nada_antes_da_primeira(s: Seq<char>, c: char, de: int)
    requires
        0 <= de,
    ensures
        match primeira(s, c, de) {
            Some(p) => forall|j: int| de <= j < p ==> s[j] != c,
            None => forall|j: int| de <= j < s.len() ==> s[j] != c,
        },
    decreases s.len() - de,
{
    if de < s.len() && s[de] != c {
        lema_nada_antes_da_primeira(s, c, de + 1);
    }
}

proof fn lema_fecha_numa_chave(s: Seq<char>, i: int, l: Leitura)
    requires
        0 <= i,
        l.abertas > 0 || (i < s.len() && s[i] == '{' && !l.em_texto),
    ensures
        fecho(s, i, l) matches Some(f) ==> s[f] == '}' && (l.abertas == 0 ==> f > i),
    decreases s.len() - i,
{
    if i < s.len() && depois_de(l, s[i]).abertas != 0 {
        lema_fecha_numa_chave(s, i + 1, depois_de(l, s[i]));
        lema_fecho_dentro(s, i + 1, depois_de(l, s[i]));
    }
}

/// Quantas chaves abrem a mais do que fecham.
pub open spec fn saldo(s: Seq<char>) -> int
    decreases s.len(),
{
    if s.len() == 0 {
        0
    } else {
        saldo(s.drop_last()) + (if s.last() == '{' {
            1int
        } else if s.last() == '}' {
            -1int
        } else {
            0int
        })
    }
}

proof fn lema_fecho_no_saldo(s: Seq<char>, p: int, i: int, l: Leitura)
    requires
        0 <= p <= i <= s.len(),
        p < s.len(),
        s[p] == '{',
        forall|j: int| p <= j < s.len() ==> s[j] != '"',
        !l.em_texto,
        !l.escapado,
        l.abertas == saldo(s.subrange(p, i)),
        forall|k: int| p < k <= i ==> saldo(#[trigger] s.subrange(p, k)) > 0,
    ensures
        match fecho(s, i, l) {
            Some(f) => saldo(s.subrange(p, f + 1)) == 0 && forall|k: int|
                p < k <= f ==> saldo(#[trigger] s.subrange(p, k)) > 0,
            None => forall|k: int| p < k <= s.len() ==> saldo(#[trigger] s.subrange(p, k)) > 0,
        },
    decreases s.len() - i,
{
    if i < s.len() {
        let agora = s.subrange(p, i + 1);
        assert(agora.drop_last() =~= s.subrange(p, i));
        assert(agora.last() == s[i]);
        let m = depois_de(l, s[i]);
        if i == p {
            assert(saldo(s.subrange(p, p)) == 0);
        } else {
            assert(saldo(s.subrange(p, i)) > 0);
        }
        if m.abertas != 0 {
            lema_fecho_no_saldo(s, p, i + 1, m);
        }
    }
}

/// Numa resposta sem aspas o objeto acaba exatamente onde as chaves se fecham pela
/// primeira vez: nele abrem tantas quantas fecham, e em nenhum começo dele; e não
/// há objeto quando, da primeira chave em diante, elas nunca se fecham.
pub proof fn lei_chaves_se_fecham(antes: Seq<char>, resto: Seq<char>)
    requires
        !antes.contains('{'),
        resto.len() > 0,
        resto[0] == '{',
        !resto.contains('"'),
    ensures
        match recorte(antes + resto) {
            Some(o) => o.is_prefix_of(resto) && saldo(o) == 0 && forall|k: int|
                0 < k < o.len() ==> saldo(#[trigger] o.take(k)) > 0,
            None => forall|k: int| 0 < k <= resto.len() ==> saldo(#[trigger] resto.take(k)) > 0,
        },
{
    let s = antes + resto;
    let p = antes.len() as int;
    lema_primeira(s, '{', 0, p);
    assert forall|j: int| p <= j < s.len() implies s[j] != '"' by {
        assert(s[j] == resto[j - p]);
        assert(resto.contains(resto[j - p]));
    }
    assert(s.subrange(p, p) =~= Seq::<char>::empty());
    lema_fecho_no_saldo(s, p, p, no_comeco());
    lema_fecho_dentro(s, p, no_comeco());
    match fecho(s, p, no_comeco()) {
        Some(f) => {
            let o = s.subrange(p, f + 1);
            assert forall|k: int| 0 < k < o.len() implies saldo(#[trigger] o.take(k)) > 0 by {
                assert(o.take(k) =~= s.subrange(p, p + k));
            }
        },
        None => {
            assert forall|k: int| 0 < k <= resto.len() implies saldo(#[trigger] resto.take(k))
                > 0 by {
                assert(resto.take(k) =~= s.subrange(p, p + k));
            }
        },
    }
}

proof fn lema_dentro_do_texto(s: Seq<char>, i: int, j: int, l: Leitura)
    requires
        0 <= i <= j <= s.len(),
        l.em_texto,
        !l.escapado,
        l.abertas > 0,
        forall|k: int| i <= k < j ==> s[k] != '"' && s[k] != '\\',
    ensures
        fecho(s, i, l) == fecho(s, j, l),
    decreases j - i,
{
    if i < j {
        assert(depois_de(l, s[i]) == l);
        lema_dentro_do_texto(s, i + 1, j, l);
    }
}

/// As chaves dentro de um texto entre aspas não contam, nem o que vem logo depois
/// de uma barra: um objeto com um texto assim sai inteiro, tenha o texto as chaves
/// e aspas que tiver.
pub proof fn lei_chaves_em_texto(
    antes: Seq<char>,
    a: Seq<char>,
    escapado: char,
    b: Seq<char>,
    depois: Seq<char>,
)
    requires
        !antes.contains('{'),
        !a.contains('"') && !a.contains('\\'),
        !b.contains('"') && !b.contains('\\'),
    ensures
        ({
            let objeto = seq!['{', '"'] + a + seq!['\\', escapado] + b + seq!['"', '}'];
            recorte(antes + objeto + depois) == Some(objeto)
        }),
{
    let o = seq!['{', '"'] + a + seq!['\\', escapado] + b + seq!['"', '}'];
    let n = a.len() as int;
    let m = b.len() as int;
    let l = Leitura { abertas: 1, em_texto: true, escapado: false };
    assert(o[0] == '{' && o[1] == '"');
    reveal_with_fuel(fecho, 3);
    assert(fecho(o, 0, no_comeco()) == fecho(o, 2, l));
    assert forall|k: int| 2 <= k < 2 + n implies o[k] != '"' && o[k] != '\\' by {
        assert(o[k] == a[k - 2]);
        assert(a.contains(a[k - 2]));
    }
    lema_dentro_do_texto(o, 2, 2 + n, l);
    assert(o[2 + n] == '\\' && o[3 + n] == escapado);
    assert(fecho(o, 2 + n, l) == fecho(o, 4 + n, l));
    assert forall|k: int| 4 + n <= k < 4 + n + m implies o[k] != '"' && o[k] != '\\' by {
        assert(o[k] == b[k - 4 - n]);
        assert(b.contains(b[k - 4 - n]));
    }
    lema_dentro_do_texto(o, 4 + n, 4 + n + m, l);
    assert(o[4 + n + m] == '"' && o[5 + n + m] == '}');
    assert(fecho(o, 4 + n + m, l) == Some(5 + n + m));
    lei_recorte_ignora_moldura(antes, o, depois);
}

} // verus!
