//! Rolagens e tabelas do SRD.

use airpg_engine::skills::srd_tables::{
    bonus_proficiencia, modificador_atributo, skill_cd_conjuracao, skill_resolver_resistencia,
    MultiplicadorDano,
};
use airpg_engine::skills::{skill_dados, skill_rolar_dado};

#[test]
fn rolagem_fica_entre_1_e_20() {
    for seed in 0..1000 {
        let r = skill_dados(10, seed);
        assert!(r.rolagem >= 1 && r.rolagem <= 20);
    }
}

#[test]
fn rolar_dado_generico_respeita_faces() {
    for seed in 0..1000 {
        let r = skill_rolar_dado(6, seed);
        assert!(r >= 1 && r <= 6);
    }
}

#[test]
fn bonus_proficiencia_segue_a_tabela_do_srd() {
    assert_eq!(bonus_proficiencia(1), 2);
    assert_eq!(bonus_proficiencia(4), 2);
    assert_eq!(bonus_proficiencia(5), 3);
    assert_eq!(bonus_proficiencia(8), 3);
    assert_eq!(bonus_proficiencia(9), 4);
    assert_eq!(bonus_proficiencia(13), 5);
    assert_eq!(bonus_proficiencia(17), 6);
    assert_eq!(bonus_proficiencia(20), 6);
}

#[test]
fn modificador_atributo_arredonda_para_baixo_incluindo_negativos() {
    assert_eq!(modificador_atributo(16), 3);
    assert_eq!(modificador_atributo(10), 0);
    assert_eq!(modificador_atributo(11), 0);
    assert_eq!(modificador_atributo(9), -1);
    assert_eq!(modificador_atributo(8), -1);
    assert_eq!(modificador_atributo(1), -5);
}

#[test]
fn cd_conjuracao_nivel_2_inteligencia_16_e_13() {
    assert_eq!(skill_cd_conjuracao(2, 16), 13);
}

#[test]
fn cd_conjuracao_cresce_com_nivel_e_atributo() {
    assert!(skill_cd_conjuracao(9, 16) > skill_cd_conjuracao(2, 16));
    assert!(skill_cd_conjuracao(2, 18) > skill_cd_conjuracao(2, 16));
}

#[test]
fn cd_conjuracao_nunca_fica_negativa_com_atributo_muito_baixo() {
    assert_eq!(skill_cd_conjuracao(1, 1), 8 + 2 - 5);
    let cd = skill_cd_conjuracao(1, 0);
    assert!(cd as i32 >= 0);
}

#[test]
fn imunidade_zera_o_dano() {
    let imunidades = vec!["fogo".to_string()];
    let resistencias = vec![];
    let mult = skill_resolver_resistencia("fogo", &imunidades, &resistencias);
    assert_eq!(mult, MultiplicadorDano::Imune);
    assert_eq!(mult.aplicar(10), 0);
}

#[test]
fn resistencia_reduz_a_metade_arredondando_para_baixo() {
    let imunidades = vec![];
    let resistencias = vec!["frio".to_string()];
    let mult = skill_resolver_resistencia("frio", &imunidades, &resistencias);
    assert_eq!(mult, MultiplicadorDano::Resistente);
    assert_eq!(mult.aplicar(7), 3);
    assert_eq!(mult.aplicar(10), 5);
}

#[test]
fn metade_do_dano_arredonda_para_baixo() {
    let m = MultiplicadorDano::Resistente;
    assert_eq!(m.aplicar(0), 0);
    assert_eq!(m.aplicar(1), 0);
    assert_eq!(m.aplicar(-1), -1);
    assert_eq!(m.aplicar(-7), -4);
    assert_eq!(m.aplicar(-8), -4);
    assert_eq!(m.aplicar(i32::MAX), 1073741823);
    assert_eq!(m.aplicar(i32::MIN), -1073741824);
}

#[test]
fn sem_resistencia_ou_imunidade_dano_e_normal() {
    let imunidades = vec!["fogo".to_string()];
    let resistencias = vec!["frio".to_string()];
    let mult = skill_resolver_resistencia("cortante", &imunidades, &resistencias);
    assert_eq!(mult, MultiplicadorDano::Normal);
    assert_eq!(mult.aplicar(8), 8);
}

#[test]
fn comparacao_de_tipo_de_dano_ignora_capitalizacao() {
    let imunidades = vec![];
    let resistencias = vec!["Frio".to_string()];
    assert_eq!(
        skill_resolver_resistencia("frio", &imunidades, &resistencias),
        MultiplicadorDano::Resistente
    );
}

#[test]
fn capitalizacao_acentuada_tambem_e_ignorada() {
    let imunidades = vec!["ÁCIDO".to_string()];
    assert_eq!(
        skill_resolver_resistencia("ácido", &imunidades, &[]),
        MultiplicadorDano::Imune
    );
}

#[test]
fn imunidade_prevalece_sobre_resistencia() {
    let ambos = vec!["fogo".to_string()];
    assert_eq!(skill_resolver_resistencia("FOGO", &ambos, &ambos), MultiplicadorDano::Imune);
}

#[test]
fn cd_de_atributo_muito_negativo_e_zero() {
    assert_eq!(skill_cd_conjuracao(1, -100), 0);
    assert_eq!(bonus_proficiencia(0), 6);
    assert_eq!(modificador_atributo(i32::MIN + 10), -1073741824);
}

#[test]
fn rolagem_e_deterministica() {
    let esperado = |faces: u64, seed: u64| {
        (seed.wrapping_mul(6364136223846793005).wrapping_add(1442695040888963407) % faces) as u32
            + 1
    };
    for seed in [0u64, 1, 7, 1234567, u64::MAX] {
        assert_eq!(skill_rolar_dado(20, seed), esperado(20, seed));
        let r = skill_dados(11, seed);
        assert_eq!(r.rolagem, esperado(20, seed));
        assert_eq!(r.sucesso, r.rolagem >= 11);
        assert_eq!(r.dificuldade, 11);
    }
    assert_eq!(skill_rolar_dado(1, 5), 1);
}
