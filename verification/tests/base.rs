//! Textos, tabelas e eventos.

use airpg_engine::events::{anotar, Event, EventType};
use airpg_engine::state::{MemoriaNpc, Player, WorldFlags};
use airpg_engine::tabela::Tabela;
use airpg_engine::texto::{
    apara, contem, eh_espaco, escreve_decimal, escreve_numeral, juntar, mesmo_texto, so_espaco,
};
use airpg_engine::valor::{Objeto, Valor};

#[test]
fn espaco_e_o_do_unicode() {
    for n in 0..=0x10ffff_u32 {
        if let Some(c) = char::from_u32(n) {
            assert_eq!(eh_espaco(c), c.is_whitespace(), "{n:x}");
        }
    }
}

#[test]
fn aparar_e_o_das_cadeias() {
    for s in ["", " ", "a", " a", "a ", "\t\u{a0}é b\u{3000}\n", "a  b", "\u{2029}x"] {
        assert_eq!(apara(s), s.trim());
        assert_eq!(so_espaco(s), s.trim().is_empty());
    }
}

#[test]
fn numerais_sao_os_usuais() {
    for n in [0_u64, 1, 9, 10, 99, 100, 65535, 1 << 40, u64::MAX] {
        assert_eq!(escreve_decimal(n), n.to_string());
        assert_eq!(escreve_numeral(n, 16), format!("{n:x}"));
        assert_eq!(escreve_numeral(n, 2), format!("{n:b}"));
    }
}

#[test]
fn juntar_poe_o_separador_so_no_meio() {
    let v = |xs: &[&str]| -> Vec<String> { xs.iter().map(|x| x.to_string()).collect() };
    for xs in [vec![], vec!["a"], vec!["a", ""], vec!["a", "b", "ção"]] {
        assert_eq!(juntar(&v(&xs), "; "), xs.join("; "));
    }
}

#[test]
fn textos_se_comparam_por_inteiro() {
    assert!(mesmo_texto("ção", "ção"));
    assert!(!mesmo_texto("cao", "ção"));
    assert!(!mesmo_texto("a", "ab"));
    assert!(mesmo_texto("", ""));
    let lista = vec!["x".to_string(), "y".to_string()];
    assert!(contem(&lista, "y"));
    assert!(!contem(&lista, "z"));
    assert!(!contem(&[], ""));
}

#[test]
fn tabela_troca_no_lugar() {
    let t: Tabela<u32> = Tabela::new().com("a", 1).com("b", 2).com("a", 3);
    assert_eq!(t.len(), 2);
    assert_eq!(t.nome(0), "a");
    assert_eq!(*t.valor(0), 3);
    assert_eq!(t.get("b"), Some(&2));
    assert_eq!(t.get("c"), None);
    let u = t.clone().com("c", 4);
    assert_eq!(u.len(), 3);
    assert_eq!(t.len(), 2);
}

#[test]
fn valores_dizem_o_que_sao() {
    assert_eq!(Valor::Inteiro(-7).as_i64(), Some(-7));
    assert_eq!(Valor::Inteiro(i64::MAX as i128 + 1).as_i64(), None);
    assert_eq!(Valor::Inteiro(i64::MIN as i128).as_i64(), Some(i64::MIN));
    assert_eq!(Valor::Texto("7".to_string()).as_i64(), None);
    assert_eq!(Valor::Bruto("7.5".to_string()).as_i64(), None);
    assert_eq!(Valor::de_texto("x").as_str(), Some("x"));
    assert_eq!(Valor::Nulo.as_str(), None);
}

#[test]
fn evento_novo_tem_identidade_propria() {
    let e = Event::new(EventType::Dialogo, "npc", 5, Objeto::new());
    let f = Event::new(EventType::Dialogo, "npc", 5, Objeto::new());
    assert_ne!(e.event_id, f.event_id);
    let id = uuid::Uuid::from_u128(e.event_id);
    assert_eq!(id.get_version_num(), 4);
    assert_eq!(id.get_variant(), uuid::Variant::RFC4122);
    assert_eq!(e.source, "npc");
    assert_eq!(e.turn, 5);
    assert!(e.timestamp.segundos > 1_700_000_000);
    assert!(e.timestamp.nanos < 2_000_000_000);
}

#[test]
fn eventos_se_acrescentam_no_fim() {
    let mut v = vec![];
    anotar(&mut v, EventType::Dialogo, "a", 1, Objeto::new());
    anotar(&mut v, EventType::FimDeTurno, "b", 2, Objeto::new().com("x", Valor::Nulo));
    assert_eq!(v.len(), 2);
    assert_eq!(v[1].source, "b");
    assert_eq!(v[1].payload.len(), 1);
}

#[test]
fn estados_iniciais() {
    let p = Player::seed("z");
    assert_eq!(p.id, "z");
    assert_eq!(p.hp.atual, 10);
    assert_eq!(p.location_id, "taverna_porto_velho");
    assert_eq!(p.nivel, 1);
    assert_eq!(p.classe, "guerreiro");
    assert!(p.inventario.is_empty());
    let m = MemoriaNpc::default();
    assert_eq!(m.estado_emocional.prazer.bits, 0);
    assert_eq!(WorldFlags::default().turno_atual, 0);
}
