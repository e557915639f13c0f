use telemy::names::merge_output_names;

fn pairs(v: &[(&str, &str)]) -> Vec<(String, String)> {
    v.iter().map(|(k, n)| (k.to_string(), n.to_string())).collect()
}

#[test]
fn new_names_are_added() {
    let mut names = pairs(&[("adv_stream", "Main Stream")]);
    merge_output_names(&mut names, &pairs(&[("virtualcam_output", "Cam")]));
    assert_eq!(names, pairs(&[("adv_stream", "Main Stream"), ("virtualcam_output", "Cam")]));
}

#[test]
fn existing_names_are_replaced() {
    let mut names = pairs(&[("adv_stream", "Main Stream"), ("x", "Old")]);
    merge_output_names(&mut names, &pairs(&[("x", "New")]));
    assert_eq!(names, pairs(&[("adv_stream", "Main Stream"), ("x", "New")]));
}

#[test]
fn blank_names_remove_the_entry() {
    let mut names = pairs(&[("a", "Alpha"), ("b", "Beta")]);
    merge_output_names(&mut names, &pairs(&[("a", ""), ("c", "Gamma")]));
    assert_eq!(names, pairs(&[("b", "Beta"), ("c", "Gamma")]));
}

#[test]
fn whitespace_only_names_also_remove() {
    let mut names = pairs(&[("a", "Alpha")]);
    merge_output_names(&mut names, &pairs(&[("a", "   ")]));
    assert!(names.is_empty());
}

#[test]
fn later_updates_win() {
    let mut names: Vec<(String, String)> = Vec::new();
    merge_output_names(&mut names, &pairs(&[("a", "First"), ("a", "Second")]));
    assert_eq!(names, pairs(&[("a", "Second")]));
}
