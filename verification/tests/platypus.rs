use trait_classes::{_default, uint8, Animal, EggLayer, Mammal, NorthernPlatypus, Platypus};

const EGG: &str = "A northern platypus layed one egg\n";
const MILK: &str = "A norther platypus gave milk\n";

fn platypus(age: &str) -> NorthernPlatypus {
    NorthernPlatypus { age: age.to_string() }
}

#[test]
fn main_writes_age_then_two_eggs() {
    let out = _default::Main();
    assert_eq!(
        out,
        "I am 14 years old\nA northern platypus layed one egg\nA northern platypus layed one egg\n"
    );
}

#[test]
fn become_older_puts_a_one_in_front() {
    let mut p = platypus("4");
    let tell = p.BecomeOlder();
    assert_eq!(tell.call(&p), "I am 14 years old");
    assert_eq!(p.age, "14");
}

#[test]
fn become_older_twice() {
    let mut p = platypus("4");
    p.BecomeOlder();
    let tell = p.BecomeOlder();
    assert_eq!(tell.call(&p), "I am 114 years old");
    assert_eq!(tell.call(&p), "I am 114 years old");
    assert_eq!(p.age, "114");
}

#[test]
fn an_earlier_teller_reports_later_ages() {
    let mut p = platypus("3");
    let f = p.BecomeOlder();
    assert_eq!(f.call(&p), "I am 13 years old");
    let g = p.BecomeOlder();
    assert_eq!(p.age, "113");
    assert_eq!(f.call(&p), "I am 113 years old");
    assert_eq!(g.call(&p), f.call(&p));
    p.age = "99".to_string();
    assert_eq!(f.call(&p), "I am 99 years old");
}

#[test]
fn become_older_adds_a_power_of_ten() {
    let mut p = platypus("4");
    let mut previous: u64 = 4;
    let mut power: u64 = 10;
    for _ in 0..5 {
        p.BecomeOlder();
        let now: u64 = p.age.parse().unwrap();
        assert_eq!(now, previous + power);
        previous = now;
        power *= 10;
    }
}

#[test]
fn become_older_from_an_empty_age() {
    let mut p = platypus("");
    let tell = p.BecomeOlder();
    assert_eq!(tell.call(&p), "I am 1 years old");
    assert_eq!(p.age, "1");
}

#[test]
fn become_older_keeps_any_text() {
    let mut p = platypus("ab");
    let tell = p.BecomeOlder();
    assert_eq!(tell.call(&p), "I am 1ab years old");
}

#[test]
fn describe_tells_the_current_age() {
    let p = platypus("3");
    assert_eq!(p.describe(), "I am 3 years old");
}

#[test]
fn lay_one_egg() {
    let mut p = platypus("3");
    assert_eq!(p.Lay1Egg(), EGG);
    assert_eq!(p.age, "3");
}

#[test]
fn lay_two_eggs_is_one_egg_twice() {
    let mut p = platypus("3");
    let two = p.Lay2Eggs();
    assert_eq!(two, format!("{}{}", EGG, EGG));
    assert_eq!(p.age, "3");
}

#[test]
fn lay_two_eggs_matches_two_single_eggs() {
    let mut a = platypus("14");
    let mut b = platypus("14");
    let out_a = a.Lay2Eggs();
    let mut out_b = b.Lay1Egg();
    out_b.push_str(&b.Lay1Egg());
    assert_eq!(out_a, out_b);
    assert_eq!(a.age, b.age);
    assert_eq!(a.age, "14");
}

#[test]
fn give_milk() {
    let mut p = platypus("7");
    assert_eq!(p.GiveMilk(), MILK);
    assert_eq!(p.age, "7");
}

fn run_as_platypus<P: Platypus>(p: &mut P) -> String {
    let tell = p.BecomeOlder();
    let mut out = tell.call(p);
    out.push_str(&p.Lay2Eggs());
    out.push_str(&p.GiveMilk());
    out
}

#[test]
fn through_the_platypus_trait() {
    let mut p = platypus("2");
    let out = run_as_platypus(&mut p);
    assert_eq!(out, format!("I am 12 years old{}{}{}", EGG, EGG, MILK));
}

#[test]
fn every_u8_is_a_uint8() {
    assert!(uint8::is(0));
    assert!(uint8::is(7));
    assert!(uint8::is(255));
}

#[test]
fn uint8_default_is_zero() {
    let d: uint8 = Default::default();
    assert_eq!(d, uint8(0));
    assert_eq!(d.0, 0);
    assert_ne!(d, uint8(1));
}
