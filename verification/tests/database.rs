use db_wrap::database::{DbWrap, Lookup};
use db_wrap::engine::{Action, Event};

#[test]
fn new_registry_has_no_store_open() {
    let w: DbWrap<u32> = DbWrap::new("/data");
    assert_eq!(w.open_count(), 0);
    assert!(w.find("/data/s").is_none());
}

#[test]
fn logical_path_resolves_below_the_root() {
    let w: DbWrap<u32> = DbWrap::new("/data");
    assert_eq!(w.resolve("s"), "/data/s");
    assert_eq!(w.resolve("a/b"), "/data/a/b");
    assert_eq!(w.resolve(""), "/data/");
    let bare: DbWrap<u32> = DbWrap::new("");
    assert_eq!(bare.resolve("s"), "/s");
}

#[test]
fn unknown_store_asks_to_be_opened() {
    let w: DbWrap<u32> = DbWrap::new("/data");
    match w.db("s") {
        Lookup::Open(resolved) => assert_eq!(resolved, "/data/s"),
        Lookup::Ready(_) => panic!("nothing was opened yet"),
    }
}

#[test]
fn registered_store_is_ready() {
    let mut w: DbWrap<u32> = DbWrap::new("/data");
    assert_eq!(w.register("/data/s".to_string(), 41), None);
    assert_eq!(w.open_count(), 1);
    match w.db("s") {
        Lookup::Ready(handle) => assert_eq!(*handle, 41),
        Lookup::Open(_) => panic!("the store was registered"),
    }
    assert_eq!(w.find("/data/s"), Some(&41));
    assert!(w.find("/data/t").is_none());
}

#[test]
fn one_handle_per_path() {
    let mut w: DbWrap<u32> = DbWrap::new("/data");
    assert_eq!(w.register("/data/s".to_string(), 1), None);
    // a second handle for the same path is handed back, the first stays
    assert_eq!(w.register("/data/s".to_string(), 2), Some(2));
    assert_eq!(w.open_count(), 1);
    assert_eq!(w.find("/data/s"), Some(&1));
}

#[test]
fn other_stores_stay_as_they_were() {
    let mut w: DbWrap<u32> = DbWrap::new("/data");
    assert_eq!(w.register("/data/a".to_string(), 1), None);
    assert_eq!(w.register("/data/b".to_string(), 2), None);
    assert_eq!(w.open_count(), 2);
    assert_eq!(w.find("/data/a"), Some(&1));
    assert_eq!(w.find("/data/b"), Some(&2));
    assert_eq!(w.resolve("a"), "/data/a");
}

#[test]
fn handles_of_one_store_are_shared() {
    // what is written through one copy of the handle shows through another
    let mut w: DbWrap<std::rc::Rc<std::cell::Cell<u8>>> = DbWrap::new("/data");
    let first = std::rc::Rc::new(std::cell::Cell::new(0u8));
    assert!(w.register("/data/s".to_string(), first.clone()).is_none());
    let again = match w.db("s") {
        Lookup::Ready(handle) => handle.clone(),
        Lookup::Open(_) => panic!("the store was registered"),
    };
    first.set(9);
    assert_eq!(again.get(), 9);
}

#[test]
fn operations_aim_at_the_resolved_path() {
    let w: DbWrap<u32> = DbWrap::new("/root/dir");
    let mut op = w.delete_batch(vec![b"k".to_vec()], "store/one");
    assert_eq!(op.step(Event::Start), Action::Open("/root/dir/store/one".to_string()));
}
