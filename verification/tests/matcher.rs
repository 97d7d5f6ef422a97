use wolfline::matcher::{fuzzy_pick, names_are_ascii};

#[test]
fn picks_the_closest_name() {
    let names = vec!["rust", "java", "lisp"];
    assert_eq!(fuzzy_pick("bust", &names), Some(0));
    assert_eq!(fuzzy_pick("jave", &names), Some(1));
    assert_eq!(fuzzy_pick("lisq", &names), Some(2));
}

#[test]
fn picks_an_exact_name() {
    let names = vec!["Wolfline Village Link", "Avent Ferry", "Wolfprowl"];
    assert_eq!(fuzzy_pick("Avent Ferry", &names), Some(1));
}

#[test]
fn picks_by_a_part_of_the_name() {
    let names = vec!["Avent Ferry", "Wolfline Village Link", "Wolfprowl"];
    assert_eq!(fuzzy_pick("village link", &names), Some(1));
}

#[test]
fn no_candidate_gives_none() {
    let names: Vec<&str> = vec![];
    assert_eq!(fuzzy_pick("anything", &names), None);
    assert_eq!(fuzzy_pick("", &names), None);
}

#[test]
fn a_single_candidate_is_picked_whatever_the_query() {
    let names = vec!["Wolfline Village Link"];
    assert_eq!(fuzzy_pick("30", &names), Some(0));
    assert_eq!(fuzzy_pick("", &names), Some(0));
}

#[test]
fn undecided_between_several_gives_none() {
    let names = vec!["abc", "def"];
    assert_eq!(fuzzy_pick("xyz", &names), None);
}

#[test]
fn text_outside_ascii_gives_none() {
    let names = vec!["Caf\u{e9} Ole", "Village"];
    assert_eq!(fuzzy_pick("Village", &names), None);
    let names = vec!["Village", "Hunt Library"];
    assert_eq!(fuzzy_pick("Vill\u{e4}ge", &names), None);
    assert_eq!(fuzzy_pick("Village", &names), Some(0));
}

#[test]
fn names_are_ascii_reads_every_name() {
    assert!(names_are_ascii(&vec![]));
    assert!(names_are_ascii(&vec!["a", "", "Main St & 1st"]));
    assert!(!names_are_ascii(&vec!["a", "b\u{fc}s"]));
    assert!(!names_are_ascii(&vec!["\u{4e2d}", "b"]));
}
