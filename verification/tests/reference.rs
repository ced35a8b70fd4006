use mids_codec::cod::unique_names;

fn names(list: &[&str]) -> Vec<String> {
    list.iter().map(|s| s.to_string()).collect()
}

fn pairs(list: &[(&str, &str)]) -> Vec<(String, String)> {
    list.iter().map(|(d, p)| (d.to_string(), p.to_string())).collect()
}

#[test]
fn every_display_name_that_occurs_once_is_kept_with_its_power() {
    let display = names(&["Fire Blast", "Fire Ball", "Blaze"]);
    let power = names(&["fire_blast", "fire_ball", "blaze"]);
    assert_eq!(
        unique_names(&display, &power),
        pairs(&[("Fire Blast", "fire_blast"), ("Fire Ball", "fire_ball"), ("Blaze", "blaze")])
    );
}

#[test]
fn a_display_name_that_occurs_twice_is_left_out() {
    let display = names(&["Strike", "Sweep", "Strike", "Slash"]);
    let power = names(&["strike", "sweep", "strike_fast", "slash"]);
    assert_eq!(unique_names(&display, &power), pairs(&[("Sweep", "sweep"), ("Slash", "slash")]));
}

#[test]
fn a_display_name_that_occurs_three_times_is_left_out() {
    let display = names(&["A", "A", "B", "A"]);
    let power = names(&["a1", "a2", "b", "a3"]);
    assert_eq!(unique_names(&display, &power), pairs(&[("B", "b")]));
}

#[test]
fn a_power_without_a_name_is_left_out() {
    let display = names(&["A", "B"]);
    let power = names(&["", "b"]);
    assert_eq!(unique_names(&display, &power), pairs(&[("B", "b")]));
}

#[test]
fn the_lists_are_paired_as_far_as_the_shorter_goes() {
    let display = names(&["A", "B", "A"]);
    let power = names(&["a", "b"]);
    assert_eq!(unique_names(&display, &power), pairs(&[("A", "a"), ("B", "b")]));
    let display = names(&["A"]);
    let power = names(&["a", "b", "c"]);
    assert_eq!(unique_names(&display, &power), pairs(&[("A", "a")]));
}

#[test]
fn no_names_give_no_pairs() {
    assert!(unique_names(&Vec::new(), &Vec::new()).is_empty());
    assert!(unique_names(&names(&["A"]), &Vec::new()).is_empty());
}
