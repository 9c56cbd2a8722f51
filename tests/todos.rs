use suika::todos::{slug_from_lowercase, TodoStore};

#[test]
fn add_todo_assigns_ids_and_slugs() {
    let mut store = TodoStore::new();
    assert_eq!(store.len(), 0);
    let a = store.add_todo("Buy Milk Today", "two litres");
    assert_eq!(a.id, 1);
    assert_eq!(a.title, "Buy Milk Today");
    assert_eq!(a.slug, "buy-milk-today");
    assert_eq!(a.content, "two litres");
    let b = store.add_todo("ÉTÉ Plans", "");
    assert_eq!(b.id, 2);
    assert_eq!(b.slug, "été-plans");
    assert_eq!(store.len(), 2);
}

#[test]
fn slug_replaces_each_space() {
    assert_eq!(slug_from_lowercase(" a  b "), "-a--b-");
    assert_eq!(slug_from_lowercase(""), "");
    assert_eq!(TodoStore::generate_slug("Hello World"), "hello-world");
}
