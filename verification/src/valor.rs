//! Valores do conteúdo de eventos e propostas.

use crate::tabela::Tabela;
use crate::texto::textos;
use vstd::prelude::*;

verus! {

/// Um valor JSON, até onde as regras do jogo olham para dentro dele: os
/// escalares e as listas de textos por extenso, qualquer outro valor (número
/// fracionário, lista mista, objeto) guardado como está escrito.
#[derive(Debug, Clone)]
pub enum Valor {
    Nulo,
    Booleano(bool),
    Inteiro(i128),
    Texto(String),
    Textos(Vec<String>),
    Bruto(String),
}

/// O que um [`Valor`] diz.
pub enum ValorView {
    Nulo,
    Booleano(bool),
    Inteiro(int),
    Texto(Seq<char>),
    Textos(Seq<Seq<char>>),
    Bruto(Seq<char>),
}

impl View for Valor {
    type V = ValorView;

    open spec fn view(&self) -> ValorView {
        match *self {
            Valor::Nulo => ValorView::Nulo,
            Valor::Booleano(b) => ValorView::Booleano(b),
            Valor::Inteiro(n) => ValorView::Inteiro(n as int),
            Valor::Texto(s) => ValorView::Texto(s@),
            Valor::Textos(v) => ValorView::Textos(textos(v@)),
            Valor::Bruto(s) => ValorView::Bruto(s@),
        }
    }
}

impl ValorView {
    /// O inteiro que o valor é, se cabe em 64 bits com sinal.
    pub open spec fn inteiro(self) -> Option<i64> {
        match self {
            ValorView::Inteiro(n) => if i64::MIN <= n <= i64::MAX {
                Some(n as i64)
            } else {
                None
            },
            _ => None,
        }
    }

    /// O texto que o valor é.
    pub open spec fn texto(self) -> Option<Seq<char>> {
        match self {
            ValorView::Texto(s) => Some(s),
            _ => None,
        }
    }
}

impl Valor {
    /// O inteiro que o valor é, se cabe em 64 bits com sinal.
    pub fn as_i64(&self) -> (r: Option<i64>)
        ensures
            r == self@.inteiro(),
    {
        match self {
            Valor::Inteiro(n) => if i64::MIN as i128 <= *n && *n <= i64::MAX as i128 {
                Some(*n as i64)
            } else {
                None
            },
            _ => None,
        }
    }

    /// O texto que o valor é.
    pub fn as_str(&self) -> (r: Option<&str>)
        ensures
            match r {
                Some(s) => self@.texto() == Some(s@),
                None => self@.texto() is None,
            },
    {
        match self {
            Valor::Texto(s) => Some(s.as_str()),
            _ => None,
        }
    }

    /// O valor que é o texto `s`.
    pub fn de_texto(s: &str) -> (v: Valor)
        ensures
            v@ == ValorView::Texto(s@),
    {
        Valor::Texto(s.to_string())
    }
}

/// Uma tabela de valores: um objeto JSON.
pub type Objeto = Tabela<Valor>;

/// O que um [`Objeto`] diz.
pub type ObjetoView = Map<Seq<char>, ValorView>;

/// O objeto sem campos.
pub open spec fn vazio() -> ObjetoView {
    Map::empty()
}

/// Um valor é um inteiro de 64 bits exatamente quando está escrito como inteiro e
/// cabe, e é um texto exatamente quando está escrito como texto.
pub proof fn lei_valor(v: ValorView)
    ensures
        v.inteiro() matches Some(n) ==> v == ValorView::Inteiro(n as int),
        v matches ValorView::Inteiro(n) ==> (v.inteiro() is Some <==> i64::MIN <= n <= i64::MAX),
        v.texto() matches Some(s) ==> v == ValorView::Texto(s),
        v is Texto ==> v.texto() is Some,
{
}

} // verus!
