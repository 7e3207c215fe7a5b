use mulder::materials::names::{name_le_exec, same_names, sorting_order};

fn strings(items: &[&str]) -> Vec<String> {
    items.iter().map(|s| s.to_string()).collect()
}

#[test]
fn order_of_names() {
    assert!(name_le_exec("Air", "Water"));
    assert!(!name_le_exec("Water", "Air"));
    assert!(name_le_exec("Rock", "Rock"));
    assert!(name_le_exec("Rock", "Rocks"));
    assert!(!name_le_exec("Rocks", "Rock"));
    assert!(name_le_exec("Zinc", "air"));
}

#[test]
fn sorting() {
    let names = strings(&["Water", "Air", "Rock", "Air", "StandardRock"]);
    let order = sorting_order(&names);
    assert_eq!(order, vec![1, 3, 2, 4, 0]);
    let mut expected = names.clone();
    expected.sort();
    let sorted: Vec<String> = order.iter().map(|&i| names[i].clone()).collect();
    assert_eq!(sorted, expected);
    assert_eq!(sorting_order(&vec![]), Vec::<usize>::new());
}

#[test]
fn same_components() {
    let a = strings(&["Water", "Rock", "Air"]);
    let b = strings(&["Air", "Water", "Rock"]);
    let c = strings(&["Air", "Water", "Water"]);
    let d = strings(&["Air", "Water"]);
    assert!(same_names(&a, &b));
    assert!(same_names(&b, &a));
    assert!(same_names(&a, &a));
    assert!(!same_names(&a, &c));
    assert!(!same_names(&a, &d));
    assert!(!same_names(&d, &a));
    assert!(same_names(&vec![], &vec![]));
    assert!(!same_names(&strings(&["Air", "Air", "Rock"]), &strings(&["Air", "Rock", "Rock"])));
}
