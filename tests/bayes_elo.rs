use bayes_elo::delta::Delta;
use bayes_elo::elo::EloRankDelta;
use bayes_elo::fixed::{div_floor_scale, SCALE};
use bayes_elo::result_representation::ActualProbability;
use bayes_elo::BayesElo;

/// The logistic expectation curve, in fixed point: 1 / (1 + 10^(delta / 400)).
fn curve(delta: i64) -> i64 {
    let d = delta as f64 / SCALE as f64;
    (SCALE as f64 / (1.0 + 10.0_f64.powf(d / 400.0))).round() as i64
}

fn expectations(elo: &BayesElo, first: i64, second: i64, is_first_advantage: bool) -> (i64, i64) {
    let (d1, d2) = elo.normalized_deltas(first, second, is_first_advantage);
    (curve(d1), curve(d2))
}

#[test]
fn it_works() {
    let mut bayes_elo_instance = BayesElo::new();
    let e = expectations(&bayes_elo_instance, 1_700_000_000, 1_200_000_000, true);
    let result = bayes_elo_instance.calculate(1_700_000_000, 1_200_000_000, e);
    assert_eq!(result.0 > 1_700_000_000, true);
    assert_eq!(result.1 < 1_200_000_000, true);

    let new_k = bayes_elo_instance.set_k_factor(20_000_000);
    assert_eq!(new_k, 20_000_000);
    let e = expectations(&bayes_elo_instance, 1_700_000_000, 1_200_000_000, true);
    let result_4_draw = bayes_elo_instance.calculate_4_draw(1_700_000_000, 1_200_000_000, e);
    assert_eq!(result_4_draw.0 < 1_700_000_000, true);
    assert_eq!(result_4_draw.1 > 1_200_000_000, true);
}

#[test]
fn set_duty_cycle() {
    let mut bayes_elo_instance = BayesElo::new();
    bayes_elo_instance.set_result_duty_cycle(ActualProbability::Alternative {
        win: 990_000,
        draw: 10_000,
        lose: 0,
    });
    assert_eq!(bayes_elo_instance.result_duty_cycle().0, 990_000);
    assert_eq!(bayes_elo_instance.result_duty_cycle().1, 10_000);
    assert_eq!(bayes_elo_instance.result_duty_cycle().2, 0);
}

#[test]
fn defaults_of_new() {
    let elo = BayesElo::new();
    assert_eq!(elo.k_factor(), 32_000_000);
    assert_eq!(elo.elo_advantage(), 32_800_000);
    assert_eq!(elo.elo_draw(), 97_300_000);
    assert_eq!(elo.result_duty_cycle(), (1_000_000, 500_000, 0));
}

#[test]
fn default_policy_resolves() {
    let t: (i64, i64, i64) = ActualProbability::Default.into();
    assert_eq!(t, (1_000_000, 500_000, 0));
}

#[test]
fn alternative_policy_resolves() {
    let t: (i64, i64, i64) =
        ActualProbability::Alternative { win: 400_000, draw: 100_000, lose: 500_000 }.into();
    assert_eq!(t, (400_000, 100_000, 500_000));
}

#[test]
fn policy_equality_compares_triples() {
    let same = ActualProbability::Alternative { win: 1_000_000, draw: 500_000, lose: 0 };
    let other = ActualProbability::Alternative { win: 400_000, draw: 100_000, lose: 500_000 };
    assert!(ActualProbability::Default == same);
    assert!(same == ActualProbability::Default);
    assert!(ActualProbability::Default != other);
    assert!(other == other.clone());
}

#[test]
fn rank_delta_formula() {
    let d = EloRankDelta { w_r: 1_000_000, w_e: 250_000, k: 32_000_000 };
    assert_eq!(d.get_elo_rank_delta(), 24_000_000);
    let d = EloRankDelta { w_r: 0, w_e: 750_000, k: 20_000_000 };
    assert_eq!(d.get_elo_rank_delta(), -15_000_000);
    let d = EloRankDelta { w_r: 400_000, w_e: 100_000, k: -10_000_000 };
    assert_eq!(d.get_elo_rank_delta(), -3_000_000);
}

#[test]
fn rank_delta_rounds_down() {
    let d = EloRankDelta { w_r: 0, w_e: 1, k: 3 };
    assert_eq!(d.get_elo_rank_delta(), -1);
    let d = EloRankDelta { w_r: 1, w_e: 0, k: 3 };
    assert_eq!(d.get_elo_rank_delta(), 0);
}

#[test]
fn floor_division_by_scale() {
    assert_eq!(div_floor_scale(0), 0);
    assert_eq!(div_floor_scale(2_999_999), 2);
    assert_eq!(div_floor_scale(-1), -1);
    assert_eq!(div_floor_scale(-1_000_000), -1);
    assert_eq!(div_floor_scale(-1_000_001), -2);
}

#[test]
fn delta_of_each_camp() {
    let advantaged = Delta {
        opponent_elo: 1_200_000_000,
        current_elo: 1_700_000_000,
        elo_advantage: 32_800_000,
        elo_draw: 97_300_000,
        is_advantage_camp: true,
    };
    assert_eq!(advantaged.get_delta(), -435_500_000);
    let other = Delta {
        opponent_elo: 1_700_000_000,
        current_elo: 1_200_000_000,
        elo_advantage: 32_800_000,
        elo_draw: 97_300_000,
        is_advantage_camp: false,
    };
    assert_eq!(other.get_delta(), 630_100_000);
}

#[test]
fn normalized_deltas_of_a_pairing() {
    let elo = BayesElo::new();
    assert_eq!(
        elo.normalized_deltas(1_700_000_000, 1_200_000_000, true),
        (-435_500_000, 630_100_000)
    );
    assert_eq!(
        elo.normalized_deltas(1_700_000_000, 1_200_000_000, false),
        (-369_900_000, 564_500_000)
    );
}

#[test]
fn decisive_result_exact() {
    let elo = BayesElo::new();
    let r = elo.calculate(1_700_000_000, 1_200_000_000, (924_627, 25_903));
    assert_eq!(r, (1_702_411_936, 1_199_171_104));
}

#[test]
fn drawn_result_exact() {
    let mut elo = BayesElo::new();
    elo.set_k_factor(20_000_000);
    let r = elo.calculate_4_draw(1_700_000_000, 1_200_000_000, (924_627, 25_903));
    assert_eq!(r, (1_691_507_460, 1_209_481_940));
}

#[test]
fn decisive_result_uses_win_and_lose_shares() {
    let mut elo = BayesElo::new();
    elo.set_result_duty_cycle(ActualProbability::Alternative {
        win: 400_000,
        draw: 100_000,
        lose: 500_000,
    });
    let r = elo.calculate(1_000_000_000, 1_000_000_000, (500_000, 500_000));
    assert_eq!(r, (996_800_000, 1_000_000_000));
    let r = elo.calculate_4_draw(1_000_000_000, 1_000_000_000, (500_000, 500_000));
    assert_eq!(r, (987_200_000, 987_200_000));
}

#[test]
fn setters_return_what_they_set() {
    let mut elo = BayesElo::new();
    assert_eq!(elo.set_k_factor(16_000_000), 16_000_000);
    assert_eq!(elo.k_factor(), 16_000_000);
    assert_eq!(elo.set_elo_advantage(-5_000_000), -5_000_000);
    assert_eq!(elo.elo_advantage(), -5_000_000);
    assert_eq!(elo.set_elo_draw(0), 0);
    assert_eq!(elo.elo_draw(), 0);
    assert_eq!(elo.set_result_duty_cycle(ActualProbability::Default), (1_000_000, 500_000, 0));
    assert_eq!(elo.result_duty_cycle(), (1_000_000, 500_000, 0));
}

#[test]
fn setting_twice_changes_nothing_more() {
    let mut elo = BayesElo::new();
    assert_eq!(elo.set_elo_draw(50_000_000), 50_000_000);
    let after_once = (elo.k_factor(), elo.result_duty_cycle(), elo.elo_advantage(), elo.elo_draw());
    assert_eq!(elo.set_elo_draw(50_000_000), 50_000_000);
    let after_twice = (elo.k_factor(), elo.result_duty_cycle(), elo.elo_advantage(), elo.elo_draw());
    assert_eq!(after_once, after_twice);
}

#[test]
fn equal_ratings_without_advantage_draw_changes_nothing() {
    let mut elo = BayesElo::new();
    elo.set_elo_advantage(0);
    elo.set_elo_draw(0);
    let e = expectations(&elo, 1_500_000_000, 1_500_000_000, true);
    assert_eq!(e, (500_000, 500_000));
    let r = elo.calculate_4_draw(1_500_000_000, 1_500_000_000, e);
    assert_eq!(r, (1_500_000_000, 1_500_000_000));
}
