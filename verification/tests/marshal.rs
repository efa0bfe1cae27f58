use twilight_interaction::handler::match_options;
use twilight_interaction::interaction::CommandDataOption;

fn names(names: &[&str]) -> Vec<String> {
    names.iter().map(|n| n.to_string()).collect()
}

fn str_opt(name: &str, value: &str) -> CommandDataOption {
    CommandDataOption::String { name: name.to_string(), value: value.to_string() }
}

fn int_opt(name: &str, value: i64) -> CommandDataOption {
    CommandDataOption::Integer { name: name.to_string(), value }
}

#[test]
fn options_land_in_their_slots() {
    let expected = names(&["alpha", "beta"]);
    let options = vec![int_opt("beta", 9), str_opt("alpha", "hi")];
    let slots = match_options(&expected, &options).unwrap();
    assert_eq!(slots.len(), 2);
    assert_eq!(slots[0], Some(str_opt("alpha", "hi")));
    assert_eq!(slots[1], Some(int_opt("beta", 9)));
}

#[test]
fn missing_option_leaves_slot_empty() {
    let expected = names(&["alpha", "beta"]);
    let options = vec![str_opt("alpha", "hi")];
    let slots = match_options(&expected, &options).unwrap();
    assert_eq!(slots[0], Some(str_opt("alpha", "hi")));
    assert_eq!(slots[1], None);
}

#[test]
fn unknown_option_is_reported_by_name() {
    let expected = names(&["alpha"]);
    let options = vec![str_opt("alpha", "hi"), str_opt("gamma", "x"), str_opt("delta", "y")];
    assert_eq!(match_options(&expected, &options), Err("gamma".to_string()));
}

#[test]
fn no_options_give_empty_slots() {
    let expected = names(&["alpha", "beta"]);
    let slots = match_options(&expected, &Vec::new()).unwrap();
    assert_eq!(slots, vec![None, None]);
}

#[test]
fn later_option_overwrites_earlier() {
    let expected = names(&["alpha"]);
    let options = vec![str_opt("alpha", "first"), str_opt("alpha", "second")];
    let slots = match_options(&expected, &options).unwrap();
    assert_eq!(slots[0], Some(str_opt("alpha", "second")));
}

#[test]
fn repeated_expected_name_fills_first_slot_only() {
    let expected = names(&["alpha", "alpha"]);
    let options = vec![str_opt("alpha", "hi")];
    let slots = match_options(&expected, &options).unwrap();
    assert_eq!(slots[0], Some(str_opt("alpha", "hi")));
    assert_eq!(slots[1], None);
}
