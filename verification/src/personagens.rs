//! Personagens gerados sob demanda: uma ficha sugerida nunca é aceita como
//! veio. Sem nome ou sem descrição é descartada, e a atitude é trazida para o
//! vocabulário das regras.

use crate::db::npcs_iniciais;
use crate::llm::{Pedido, Resposta};
use crate::skills::{modulo_64, passo_congruencial};
use crate::state::{Npc, NpcView};
use crate::texto::{
    alfanumerico, em_branco, escreve_numeral, hexadecimal, juntado, lema_juntado_parte, mesmo_texto, minusculas,
    minusculas_ascii, para_chars, so_espaco,
};
use vstd::prelude::*;
use vstd::utf8::{encode_utf8, is_ascii_chars};

verus! {

/// As instruções de quem inventa um personagem.
pub const SYSTEM_PROMPT_GERAR_PERSONAGEM: &'static str = r#"Você é um criador de personagens de um RPG de fantasia medieval. Dado um local e um contexto, invente um NPC novo, com personalidade distinta e papel claro na comunidade.
Responda APENAS com um JSON no formato {"nome": "...", "descricao": "papel + personalidade em 2-3 frases", "atitude_com_jogador": "neutro|hostil|desconfiado|aliado|amigavel", "autonomo": bool}.
A descrição deve deixar claro o que esse personagem FAZ (papel na comunidade) e o que ele NÃO tem autoridade para decidir (limites claros), pra outros personagens saberem quando não é da conta dele responder. Personalidade deve ser específica e memorável, nunca genérica."#;

/// Uma ficha sugerida.
#[derive(Debug, Clone)]
pub struct PersonagemProposto {
    pub nome: String,
    pub descricao: String,
    pub atitude_com_jogador: String,
    pub autonomo: bool,
}

/// Quantos caracteres da descrição entram no registro.
pub const TAMANHO_DO_RESUMO: usize = 120;

// ---------------------------------------------------------------------------
// Identificador
// ---------------------------------------------------------------------------

/// As palavras de um texto: os trechos seguidos de caracteres aceitos.
pub open spec fn palavras(cs: Seq<char>, aceitos: Seq<bool>) -> Seq<Seq<char>>
    decreases cs.len(),
{
    if cs.len() == 0 {
        Seq::empty()
    } else {
        let n = cs.len() - 1;
        let antes = palavras(cs.drop_last(), aceitos);
        if !aceitos[n] {
            antes
        } else if n > 0 && aceitos[n - 1] {
            antes.update(antes.len() - 1, antes.last().push(cs.last()))
        } else {
            antes.push(seq![cs.last()])
        }
    }
}

/// As palavras ligadas por sublinhados.
pub open spec fn slug(cs: Seq<char>, aceitos: Seq<bool>) -> Seq<char> {
    juntado(palavras(cs, aceitos), "_"@)
}

/// Um resumo de 64 bits de uma sequência de bytes.
pub open spec fn soma_de_bytes(bytes: Seq<u8>) -> int
    decreases bytes.len(),
{
    if bytes.len() == 0 {
        0
    } else {
        (soma_de_bytes(bytes.drop_last()) * 31 + bytes.last()) % modulo_64()
    }
}

/// O identificador com este slug.
pub open spec fn identificador(slug: Seq<char>, nome: Seq<char>, location_id: Seq<char>) -> Seq<
    char,
> {
    "npc_gerado_"@ + slug + "_"@ + hexadecimal(
        soma_de_bytes(encode_utf8(nome + location_id)) % 0x10000,
    )
}

/// Quais caracteres são letras ou números.
pub open spec fn marcas(cs: Seq<char>) -> Seq<bool> {
    cs.map_values(|c: char| alfanumerico(c))
}

/// Letras e números ASCII.
pub open spec fn alfanumerico_ascii(c: char) -> bool {
    '0' <= c <= '9' || 'A' <= c <= 'Z' || 'a' <= c <= 'z'
}

/// Quais caracteres são letras ou números ASCII.
pub open spec fn marcas_ascii(cs: Seq<char>) -> Seq<bool> {
    cs.map_values(|c: char| alfanumerico_ascii(c))
}

proof fn lema_palavras_nao_vazias(cs: Seq<char>, aceitos: Seq<bool>)
    requires
        cs.len() > 0,
        aceitos[cs.len() - 1],
    ensures
        palavras(cs, aceitos).len() > 0,
    decreases cs.len(),
{
    if cs.len() > 1 && aceitos[cs.len() - 2] {
        lema_palavras_nao_vazias(cs.drop_last(), aceitos);
    }
}

proof fn lema_juntado_cresce(ps: Seq<Seq<char>>, sep: Seq<char>, c: char)
    requires
        ps.len() > 0,
    ensures
        juntado(ps.update(ps.len() - 1, ps.last().push(c)), sep) == juntado(ps, sep).push(c),
{
    let qs = ps.update(ps.len() - 1, ps.last().push(c));
    if ps.len() > 1 {
        assert(qs.drop_last() =~= ps.drop_last());
        assert(juntado(qs, sep) =~= juntado(ps, sep).push(c));
    }
}

/// Liga por sublinhados as palavras de um texto, dados quais caracteres contam.
pub fn montar_slug(cs: &[char], aceitos: &[bool]) -> (r: String)
    requires
        cs@.len() == aceitos@.len(),
    ensures
        r@ == slug(cs@, aceitos@),
{
    let mut r = String::new();
    let mut vazio = true;
    let mut dentro = false;
    let mut i: usize = 0;
    assert(cs@.take(0) =~= Seq::<char>::empty());
    while i < cs.len()
        invariant
            i <= cs@.len(),
            cs@.len() == aceitos@.len(),
            r@ == slug(cs@.take(i as int), aceitos@),
            vazio == (palavras(cs@.take(i as int), aceitos@).len() == 0),
            dentro == (i > 0 && aceitos@[i - 1]),
        decreases cs@.len() - i,
    {
        let ghost antes = cs@.take(i as int);
        let ghost agora = cs@.take(i + 1);
        let ghost ps = palavras(antes, aceitos@);
        assert(agora.drop_last() =~= antes);
        assert(agora.last() == cs@[i as int]);
        if aceitos[i] {
            proof {
                if dentro {
                    lema_palavras_nao_vazias(antes, aceitos@);
                    lema_juntado_cresce(ps, "_"@, cs@[i as int]);
                } else {
                    lema_juntado_parte(ps, "_"@, seq![cs@[i as int]]);
                }
            }
            if !dentro && !vazio {
                r.append("_");
            }
            let ghost meio = r@;
            r.push(cs[i]);
            proof {
                assert(meio.push(cs@[i as int]) =~= meio + seq![cs@[i as int]]);
                if !dentro && vazio {
                    assert(meio =~= Seq::<char>::empty());
                    assert(r@ =~= seq![cs@[i as int]]);
                }
            }
            vazio = false;
            dentro = true;
        } else {
            dentro = false;
        }
        i += 1;
    }
    assert(cs@.take(i as int) =~= cs@);
    r
}

fn somar_bytes(s: &str) -> (h: u64)
    ensures
        h == soma_de_bytes(encode_utf8(s@)),
{
    let bytes = s.as_bytes();
    let mut h: u64 = 0;
    let mut i: usize = 0;
    assert(bytes@.take(0) =~= Seq::<u8>::empty());
    while i < bytes.len()
        invariant
            i <= bytes@.len(),
            h == soma_de_bytes(bytes@.take(i as int)),
        decreases bytes@.len() - i,
    {
        proof {
            let agora = bytes@.take(i + 1);
            assert(agora.drop_last() =~= bytes@.take(i as int));
            assert(agora.last() == bytes@[i as int]);
        }
        h = passo_congruencial(h, 31, bytes[i] as u64);
        i += 1;
    }
    assert(bytes@.take(i as int) =~= bytes@);
    h
}

/// Um identificador em snake_case do nome, com um sufixo curto que vem do nome
/// e do local. Evita colisões comuns; não é criptograficamente único.
pub fn gerar_id_unico(nome: &str, location_id: &str) -> (r: String)
    ensures
        r@ == identificador(
            slug(minusculas(nome@), marcas(minusculas(nome@))),
            nome@,
            location_id@,
        ),
        is_ascii_chars(nome@) ==> r@ == identificador(
            slug(minusculas_ascii(nome@), marcas_ascii(minusculas_ascii(nome@))),
            nome@,
            location_id@,
        ),
{
    let menor = nome.to_lowercase();
    let cs = para_chars(menor.as_str());
    let mut aceitos: Vec<bool> = Vec::new();
    let mut i: usize = 0;
    while i < cs.len()
        invariant
            i <= cs@.len(),
            aceitos@.len() == i,
            forall|j: int| 0 <= j < i ==> aceitos@[j] == alfanumerico(#[trigger] cs@[j]),
            forall|j: int|
                0 <= j < i && (#[trigger] cs@[j]) as u32 <= 0x7f ==> aceitos@[j]
                    == alfanumerico_ascii(cs@[j]),
        decreases cs@.len() - i,
    {
        aceitos.push(cs[i].is_alphanumeric());
        i += 1;
    }
    proof {
        assert(aceitos@ =~= marcas(cs@));
        if is_ascii_chars(nome@) {
            assert forall|j: int| 0 <= j < cs@.len() implies (#[trigger] cs@[j]) as u32 <= 0x7f by {
                assert(nome@[j] as u32 <= 0x7f);
            }
            assert(aceitos@ =~= marcas_ascii(cs@));
        }
    }
    let s = montar_slug(cs.as_slice(), aceitos.as_slice());
    let mut chave = nome.to_string();
    chave.append(location_id);
    let h: u64 = somar_bytes(chave.as_str());
    assert(h & 0xffff == h % 0x10000) by (bit_vector);
    let sufixo: u64 = h & 0xffff;
    let mut r = "npc_gerado_".to_string();
    r.append(s.as_str());
    r.append("_");
    r.append(escreve_numeral(sufixo, 16).as_str());
    r
}

// ---------------------------------------------------------------------------
// Ficha
// ---------------------------------------------------------------------------

/// Uma das atitudes das regras.
pub open spec fn atitude_valida(s: Seq<char>) -> bool {
    ||| s == "neutro"@
    ||| s == "hostil"@
    ||| s == "desconfiado"@
    ||| s == "aliado"@
    ||| s == "amigavel"@
}

/// Se a atitude é uma das regras.
pub fn eh_atitude_valida(s: &str) -> (r: bool)
    ensures
        r == atitude_valida(s@),
{
    mesmo_texto(s, "neutro") || mesmo_texto(s, "hostil") || mesmo_texto(s, "desconfiado")
        || mesmo_texto(s, "aliado") || mesmo_texto(s, "amigavel")
}

/// A sugestão tem nome e descrição.
pub open spec fn aproveitavel(resposta: Resposta<PersonagemProposto>) -> bool {
    match resposta {
        Resposta::Lida(p) => !em_branco(p.nome@) && !em_branco(p.descricao@),
        _ => false,
    }
}

/// A ficha que uma sugestão aproveitável dá.
pub open spec fn ficha_gerada(p: PersonagemProposto, location_id: Seq<char>) -> NpcView {
    NpcView::figurante(
        identificador(slug(minusculas(p.nome@), marcas(minusculas(p.nome@))), p.nome@, location_id),
        p.nome@,
        if atitude_valida(p.atitude_com_jogador@) {
            p.atitude_com_jogador@
        } else {
            "neutro"@
        },
        location_id,
        p.autonomo,
        p.descricao@,
    )
}

/// O pedido de um personagem novo.
pub fn pedido_de_personagem(location_id: &str, contexto: &str) -> (p: Pedido)
    ensures
        p.system@ == SYSTEM_PROMPT_GERAR_PERSONAGEM@,
        p.user@ == "Local: "@ + location_id@ + "\nContexto/pedido: "@ + contexto@,
{
    let mut user = "Local: ".to_string();
    user.append(location_id);
    user.append("\nContexto/pedido: ");
    user.append(contexto);
    Pedido { system: SYSTEM_PROMPT_GERAR_PERSONAGEM.to_string(), user }
}

/// Gera um NPC novo a partir da sugestão, ou nada se ela não é aproveitável.
pub fn gerar_personagem(resposta: Resposta<PersonagemProposto>, location_id: &str) -> (r: Option<
    Npc,
>)
    ensures
        match r {
            Some(n) => aproveitavel(resposta) && n@ == ficha_gerada(
                resposta->Lida_0,
                location_id@,
            ) && (is_ascii_chars(n@.nome) ==> n@.id == identificador(
                slug(minusculas_ascii(n@.nome), marcas_ascii(minusculas_ascii(n@.nome))),
                n@.nome,
                location_id@,
            )),
            None => !aproveitavel(resposta),
        },
{
    match resposta {
        Resposta::Lida(p) => {
            if so_espaco(p.nome.as_str()) || so_espaco(p.descricao.as_str()) {
                return None;
            }
            let atitude = if eh_atitude_valida(p.atitude_com_jogador.as_str()) {
                p.atitude_com_jogador
            } else {
                "neutro".to_string()
            };
            let id = gerar_id_unico(p.nome.as_str(), location_id);
            Some(
                Npc::figurante(
                    id,
                    p.nome,
                    atitude,
                    location_id.to_string(),
                    p.autonomo,
                    p.descricao,
                ),
            )
        },
        Resposta::Falha => None,
        Resposta::Ilegivel => None,
    }
}

/// O começo de um texto.
pub open spec fn comeco(s: Seq<char>, n: int) -> Seq<char> {
    if s.len() > n {
        s.take(n)
    } else {
        s
    }
}

/// O que o log conta de um personagem novo.
pub fn gerar_e_registrar_personagem(npc: &Npc, location_id: &str) -> (r: String)
    ensures
        r@ == npc@.nome + " apareceu em "@ + location_id@ + ": "@ + comeco(
            npc@.descricao,
            TAMANHO_DO_RESUMO as int,
        ),
{
    let mut r = npc.nome.clone();
    r.append(" apareceu em ");
    r.append(location_id);
    r.append(": ");
    let d = npc.descricao.as_str();
    if d.unicode_len() > TAMANHO_DO_RESUMO {
        r.append(d.substring_char(0, TAMANHO_DO_RESUMO));
    } else {
        r.append(d);
    }
    r
}

/// Todo personagem gerado nasce vivo, fora de combate, no local pedido, com
/// nome, descrição e uma atitude das regras.
pub proof fn lei_personagem_gerado(p: PersonagemProposto, location_id: Seq<char>)
    requires
        aproveitavel(Resposta::Lida(p)),
    ensures
        atitude_valida(ficha_gerada(p, location_id).atitude_com_jogador),
        !crate::combate::combatente(ficha_gerada(p, location_id)),
        ficha_gerada(p, location_id).location_id == location_id,
        ficha_gerada(p, location_id).status == crate::state::NpcStatus::Vivo,
        !em_branco(ficha_gerada(p, location_id).nome),
        !em_branco(ficha_gerada(p, location_id).descricao),
{
}

/// Um identificador gerado nunca é o de um NPC do mundo inicial.
pub proof fn lei_id_gerado_e_novo(
    slug: Seq<char>,
    nome: Seq<char>,
    location_id: Seq<char>,
    i: int,
)
    requires
        0 <= i < npcs_iniciais().len(),
    ensures
        identificador(slug, nome, location_id) != npcs_iniciais()[i].id,
{
    reveal_strlit("npc_gerado_");
    reveal_strlit("npc_taverneiro_bram");
    reveal_strlit("npc_cliente_gerta");
    reveal_strlit("npc_guarda_holt");
    reveal_strlit("npc_lobo_floresta");
    let id = identificador(slug, nome, location_id);
    assert(id[4] == "npc_gerado_"@[4] && id[5] == "npc_gerado_"@[5]);
    assert("npc_taverneiro_bram"@[4] == 't');
    assert("npc_cliente_gerta"@[4] == 'c');
    assert("npc_guarda_holt"@[5] == 'u');
    assert("npc_lobo_floresta"@[4] == 'l');
}

// ---------------------------------------------------------------------------
// Leis do identificador e da ficha
// ---------------------------------------------------------------------------

/// As palavras de um texto são os seus trechos aceitos mais longos, na ordem: cada
/// uma só tem caracteres aceitos, entre duas há pelo menos um que não é, e todo
/// caractere aceito está em alguma.
pub proof fn lei_palavras(cs: Seq<char>, aceitos: Seq<bool>) -> (trechos: Seq<(int, int)>)
    requires
        cs.len() <= aceitos.len(),
    ensures
        trechos.len() == palavras(cs, aceitos).len(),
        forall|k: int|
            0 <= k < trechos.len() ==> 0 <= (#[trigger] trechos[k]).0 < trechos[k].1 <= cs.len()
                && palavras(cs, aceitos)[k] == cs.subrange(trechos[k].0, trechos[k].1),
        forall|k: int, j: int|
            0 <= k < trechos.len() && (#[trigger] trechos[k]).0 <= j < trechos[k].1
                ==> #[trigger] aceitos[j],
        forall|a: int, b: int|
            0 <= a < b < trechos.len() ==> (#[trigger] trechos[a]).1 < (#[trigger] trechos[b]).0,
        forall|j: int|
            0 <= j < cs.len() && #[trigger] aceitos[j] ==> exists|k: int|
                0 <= k < trechos.len() && (#[trigger] trechos[k]).0 <= j < trechos[k].1,
        cs.len() > 0 && aceitos[cs.len() - 1] ==> trechos.len() > 0 && trechos.last().1 == cs.len(),
        cs.len() > 0 && !aceitos[cs.len() - 1] ==> forall|k: int|
            0 <= k < trechos.len() ==> (#[trigger] trechos[k]).1 < cs.len(),
    decreases cs.len(),
{
    if cs.len() == 0 {
        Seq::empty()
    } else {
        let n = cs.len() - 1;
        let resto = cs.drop_last();
        let antes = lei_palavras(resto, aceitos);
        let r = if !aceitos[n] {
            antes
        } else if n > 0 && aceitos[n - 1] {
            antes.update(antes.len() - 1, (antes.last().0, n + 1))
        } else {
            antes.push((n, n + 1))
        };
        let ps = palavras(cs, aceitos);
        assert forall|k: int| 0 <= k < r.len() implies 0 <= (#[trigger] r[k]).0 < r[k].1 <= cs.len()
            && ps[k] == cs.subrange(r[k].0, r[k].1) by {
            if k < antes.len() {
                assert(antes[k].1 <= n);
                assert(resto.subrange(antes[k].0, antes[k].1) =~= cs.subrange(
                    antes[k].0,
                    antes[k].1,
                ));
                if aceitos[n] && n > 0 && aceitos[n - 1] && k == antes.len() - 1 {
                    assert(cs.subrange(antes[k].0, n + 1) =~= cs.subrange(antes[k].0, n).push(
                        cs.last(),
                    ));
                }
            } else {
                assert(cs.subrange(n, n + 1) =~= seq![cs.last()]);
            }
        }
        assert forall|k: int, j: int|
            0 <= k < r.len() && (#[trigger] r[k]).0 <= j < r[k].1 implies #[trigger] aceitos[j] by {
            if k < antes.len() && j < n {
                assert(antes[k].0 <= j < antes[k].1);
            }
        }
        assert forall|a: int, b: int| 0 <= a < b < r.len() implies (#[trigger] r[a]).1 < (
        #[trigger] r[b]).0 by {
            if b < antes.len() {
                assert(antes[a].1 < antes[b].0);
            } else if n > 0 {
                assert(antes[a].1 < n);
            } else {
                assert(antes[a].1 <= 0);
            }
        }
        assert forall|j: int| 0 <= j < cs.len() && #[trigger] aceitos[j] implies exists|k: int|
            0 <= k < r.len() && (#[trigger] r[k]).0 <= j < r[k].1 by {
            if j < n {
                let k = choose|k: int|
                    0 <= k < antes.len() && (#[trigger] antes[k]).0 <= j < antes[k].1;
                assert(r[k].0 <= j < r[k].1);
            } else {
                assert(r[r.len() - 1].0 <= j < r[r.len() - 1].1);
            }
        }
        if !aceitos[n] {
            assert forall|k: int| 0 <= k < r.len() implies (#[trigger] r[k]).1 < cs.len() by {
                assert(antes[k].1 <= n);
            }
        }
        r
    }
}

/// O resumo de um texto multiplica por trinta e um e soma, byte a byte, em 64
/// bits.
pub proof fn lei_soma_de_bytes(bytes: Seq<u8>, b: u8)
    ensures
        soma_de_bytes(Seq::empty()) == 0,
        soma_de_bytes(bytes.push(b)) == (soma_de_bytes(bytes) * 31 + b)
            % 0x1_0000_0000_0000_0000,
{
    assert(bytes.push(b).drop_last() =~= bytes);
}

/// O identificador é o prefixo dos gerados, o slug, e os dezesseis bits baixos do
/// resumo do nome seguido do local, em hexadecimal.
pub proof fn lei_identificador(slug: Seq<char>, nome: Seq<char>, location_id: Seq<char>)
    ensures
        identificador(slug, nome, location_id) == "npc_gerado_"@ + slug + "_"@
            + crate::texto::numeral(soma_de_bytes(encode_utf8(nome + location_id)) % 65536, 16),
{
}

/// Uma sugestão serve exatamente quando foi lida e tem nome e descrição com alguma
/// coisa além de espaço.
pub proof fn lei_aproveitavel(resposta: Resposta<PersonagemProposto>)
    ensures
        aproveitavel(resposta) <==> (resposta matches Resposta::Lida(p) && (exists|i: int|
            0 <= i < p.nome@.len() && !crate::texto::espaco(#[trigger] p.nome@[i])) && (exists|
            i: int,
        |
            0 <= i < p.descricao@.len() && !crate::texto::espaco(#[trigger] p.descricao@[i]))),
{
}

/// A ficha gerada fica com o nome, a descrição e a autonomia sugeridos, e com a
/// atitude sugerida se é uma das cinco das regras; senão é neutra. Nasce viva, no
/// local, sem pontos de vida, sem nada e sem preços.
pub proof fn lei_ficha_gerada(p: PersonagemProposto, location_id: Seq<char>)
    ensures
        ({
            let n = ficha_gerada(p, location_id);
            let conhecida = seq![
                "neutro"@,
                "hostil"@,
                "desconfiado"@,
                "aliado"@,
                "amigavel"@,
            ].contains(p.atitude_com_jogador@);
            &&& n.nome == p.nome@
            &&& n.descricao == p.descricao@
            &&& n.autonomo == p.autonomo
            &&& n.location_id == location_id
            &&& conhecida ==> n.atitude_com_jogador == p.atitude_com_jogador@
            &&& !conhecida ==> n.atitude_com_jogador == "neutro"@
            &&& n.status == crate::state::NpcStatus::Vivo
            &&& n.hp is None && n.classe_armadura is None && n.dano_dado_faces is None
            &&& n.xp_recompensa is None && n.moedas is None && n.deslocamento is None
            &&& n.loot.len() == 0 && n.precos.len() == 0 && n.interesses.len() == 0
            &&& n.imunidades.len() == 0 && n.resistencias.len() == 0
        }),
{
    let a = p.atitude_com_jogador@;
    let todas = seq!["neutro"@, "hostil"@, "desconfiado"@, "aliado"@, "amigavel"@];
    assert(todas[0] == "neutro"@ && todas[1] == "hostil"@ && todas[2] == "desconfiado"@);
    assert(todas[3] == "aliado"@ && todas[4] == "amigavel"@);
    if todas.contains(a) {
        let i = choose|i: int| 0 <= i < todas.len() && todas[i] == a;
        assert(atitude_valida(a));
    }
}

/// O registro de um personagem leva o começo da descrição, até cento e vinte
/// caracteres.
pub proof fn lei_resumo_do_registro(s: Seq<char>)
    ensures
        s.len() <= 120 ==> comeco(s, TAMANHO_DO_RESUMO as int) == s,
        s.len() > 120 ==> comeco(s, TAMANHO_DO_RESUMO as int).len() == 120 && comeco(
            s,
            TAMANHO_DO_RESUMO as int,
        ).is_prefix_of(s),
{
}

} // verus!
