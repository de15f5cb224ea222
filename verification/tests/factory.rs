use relm4_macros::factory::{
    CloneableFactoryComponent, Delivery, FactoryComponent, FactoryHashMap, FactoryView,
};
use std::cell::{Cell, RefCell};
use std::rc::Rc;
use std::collections::hash_map::RandomState;

#[derive(Debug, Default)]
struct ListBox {
    children: RefCell<Vec<String>>,
}

impl FactoryView for ListBox {
    type Children = String;
    type ReturnedWidget = String;
    type Position = ();

    fn factory_append(&self, widget: &String, _position: &()) -> String {
        self.children.borrow_mut().push(widget.clone());
        widget.clone()
    }

    fn factory_remove(&self, widget: &String) {
        self.children.borrow_mut().retain(|w| w != widget);
    }
}

#[derive(Debug, PartialEq, Eq)]
struct Counter {
    label: String,
    value: u32,
}

impl FactoryComponent for Counter {
    type ParentWidget = ListBox;
    type Input = u32;
    type Init = u32;
    type Index = u64;

    fn init_model(init: u32, index: &u64) -> Self {
        Counter { label: format!("counter-{}", index), value: init }
    }

    fn init_root(&self) -> String {
        self.label.clone()
    }

    fn position(&self, _index: &u64) {}
}

#[derive(Debug, Default)]
struct Tally {
    appended: Cell<u32>,
    removed: Cell<u32>,
}

impl FactoryView for Tally {
    type Children = u32;
    type ReturnedWidget = u32;
    type Position = u64;

    fn factory_append(&self, widget: &u32, position: &u64) -> u32 {
        self.appended.set(self.appended.get() + 1);
        let _ = position;
        *widget
    }

    fn factory_remove(&self, _widget: &u32) {
        self.removed.set(self.removed.get() + 1);
    }
}

#[derive(Debug, PartialEq, Eq)]
struct Row(u32);

impl FactoryComponent for Row {
    type ParentWidget = Tally;
    type Input = ();
    type Init = u32;
    type Index = u64;

    fn init_model(init: u32, _index: &u64) -> Self {
        Row(init)
    }

    fn init_root(&self) -> u32 {
        self.0
    }

    fn position(&self, index: &u64) -> u64 {
        *index
    }
}

#[derive(Clone, Debug, Default)]
struct SharedBox {
    children: Rc<RefCell<Vec<u32>>>,
}

impl FactoryView for SharedBox {
    type Children = u32;
    type ReturnedWidget = u32;
    type Position = ();

    fn factory_append(&self, widget: &u32, _position: &()) -> u32 {
        self.children.borrow_mut().push(*widget);
        *widget
    }

    fn factory_remove(&self, widget: &u32) {
        self.children.borrow_mut().retain(|w| w != widget);
    }
}

#[derive(Debug, PartialEq, Eq)]
struct Item(u32);

impl FactoryComponent for Item {
    type ParentWidget = SharedBox;
    type Input = ();
    type Init = u32;
    type Index = u64;

    fn init_model(init: u32, _index: &u64) -> Self {
        Item(init)
    }

    fn init_root(&self) -> u32 {
        self.0
    }

    fn position(&self, _index: &u64) {}
}

impl CloneableFactoryComponent for Item {
    fn get_init(&self) -> u32 {
        self.0 + 100
    }
}

fn children(map: &FactoryHashMap<u64, Counter>) -> Vec<String> {
    map.widget().children.borrow().clone()
}

#[test]
fn new_map_is_empty() {
    let map: FactoryHashMap<u64, Counter> = FactoryHashMap::new(ListBox::default());
    assert!(map.is_empty());
    assert_eq!(map.len(), 0);
    assert!(map.get(&1).is_none());
    assert!(children(&map).is_empty());
}

#[test]
fn width_hasher_map_is_empty() {
    let map: FactoryHashMap<u64, Counter, RandomState> =
        FactoryHashMap::width_hasher(ListBox::default(), RandomState::new());
    assert!(map.is_empty());
    assert_eq!(map.len(), 0);
}

#[test]
fn insert_attaches_and_returns_previous() {
    let mut map: FactoryHashMap<u64, Counter> = FactoryHashMap::new(ListBox::default());
    assert_eq!(map.insert(7, 1), None);
    assert_eq!(map.len(), 1);
    assert!(!map.is_empty());
    assert_eq!(map.get(&7), Some(&Counter { label: "counter-7".to_string(), value: 1 }));
    assert_eq!(children(&map), vec!["counter-7".to_string()]);

    let previous = map.insert(7, 5);
    assert_eq!(previous, Some(Counter { label: "counter-7".to_string(), value: 1 }));
    assert_eq!(map.len(), 1);
    assert_eq!(map.get(&7).map(|c| c.value), Some(5));
    assert_eq!(children(&map), vec!["counter-7".to_string()]);
}

#[test]
fn remove_detaches() {
    let mut map: FactoryHashMap<u64, Counter> = FactoryHashMap::new(ListBox::default());
    map.insert(1, 10);
    map.insert(2, 20);
    assert_eq!(map.remove(&3), None);
    assert_eq!(map.remove(&1).map(|c| c.value), Some(10));
    assert_eq!(map.len(), 1);
    assert!(map.get(&1).is_none());
    assert_eq!(children(&map), vec!["counter-2".to_string()]);
}

#[test]
fn clear_detaches_everything() {
    let mut map: FactoryHashMap<u64, Counter> = FactoryHashMap::new(ListBox::default());
    map.insert(1, 10);
    map.insert(2, 20);
    map.clear();
    assert!(map.is_empty());
    assert!(children(&map).is_empty());
}

#[test]
fn from_vec_inserts_in_order() {
    let map: FactoryHashMap<u64, Counter> =
        FactoryHashMap::from_vec(vec![(3, 30), (4, 40), (3, 31)], ListBox::default());
    assert_eq!(map.len(), 2);
    assert_eq!(map.get(&3).map(|c| c.value), Some(31));
    assert_eq!(map.get(&4).map(|c| c.value), Some(40));
    assert_eq!(children(&map), vec!["counter-4".to_string(), "counter-3".to_string()]);
}

#[test]
fn keys_values_and_iter_cover_the_map() {
    let map: FactoryHashMap<u64, Counter> =
        FactoryHashMap::from_vec(vec![(1, 10), (2, 20), (3, 30)], ListBox::default());
    let mut keys: Vec<u64> = map.keys().into_iter().copied().collect();
    keys.sort();
    assert_eq!(keys, vec![1, 2, 3]);
    let mut values: Vec<u32> = map.values().into_iter().map(|c| c.value).collect();
    values.sort();
    assert_eq!(values, vec![10, 20, 30]);
    let mut pairs: Vec<(u64, u32)> = map.iter().into_iter().map(|(k, c)| (*k, c.value)).collect();
    pairs.sort();
    assert_eq!(pairs, vec![(1, 10), (2, 20), (3, 30)]);
}

#[test]
fn get_mut_gives_access_to_one_component() {
    let mut map: FactoryHashMap<u64, Counter> = FactoryHashMap::new(ListBox::default());
    map.insert(1, 10);
    assert!(map.get_mut(&2).is_none());
    {
        let mut guard = map.get_mut(&1).unwrap();
        assert_eq!(guard.get().value, 10);
        let previous = guard.replace(Counter { label: "counter-1".to_string(), value: 11 });
        assert_eq!(previous.value, 10);
    }
    assert_eq!(map.get(&1).map(|c| c.value), Some(11));
}

#[test]
fn index_reads_a_component_that_is_there() {
    let mut map: FactoryHashMap<u64, Counter> = FactoryHashMap::new(ListBox::default());
    map.insert(4, 40);
    assert_eq!(map.index(&4).value, 40);
}

#[test]
fn send_and_broadcast_queue_in_order() {
    let mut map: FactoryHashMap<u64, Counter> = FactoryHashMap::new(ListBox::default());
    map.insert(1, 10);
    map.send(1, 5);
    map.broadcast(6);
    let pending = map.take_pending();
    assert_eq!(pending.len(), 2);
    assert!(matches!(pending[0], Delivery::To(1, 5)));
    assert!(matches!(pending[1], Delivery::All(6)));
    assert!(map.take_pending().is_empty());
}

#[test]
fn from_vec_attaches_every_pair_and_detaches_the_replaced() {
    let map: FactoryHashMap<u64, Row> =
        FactoryHashMap::from_vec(vec![(1, 10), (2, 20), (1, 11), (1, 12)], Tally::default());
    assert_eq!(map.len(), 2);
    assert_eq!(map.get(&1), Some(&Row(12)));
    assert_eq!(map.get(&2), Some(&Row(20)));
    assert_eq!(map.widget().appended.get(), 4);
    assert_eq!(map.widget().removed.get(), 2);
}

#[test]
fn from_vec_is_new_and_then_insert() {
    let pairs: Vec<(u64, u32)> = vec![(5, 1), (6, 2), (5, 3)];
    let built: FactoryHashMap<u64, Row> = FactoryHashMap::from_vec(pairs.clone(), Tally::default());
    let mut grown: FactoryHashMap<u64, Row> = FactoryHashMap::new(Tally::default());
    for (key, init) in pairs {
        let _ = grown.insert(key, init);
    }
    assert_eq!(built.len(), grown.len());
    assert_eq!(built.get(&5), grown.get(&5));
    assert_eq!(built.get(&6), grown.get(&6));
    assert_eq!(built.widget().appended.get(), grown.widget().appended.get());
    assert_eq!(built.widget().removed.get(), grown.widget().removed.get());
}

#[test]
fn calls_on_the_parent_are_counted() {
    let mut map: FactoryHashMap<u64, Row> = FactoryHashMap::new(Tally::default());
    let _ = map.insert(1, 10);
    let _ = map.insert(2, 20);
    let _ = map.insert(1, 11);
    assert_eq!((map.widget().appended.get(), map.widget().removed.get()), (3, 1));
    assert_eq!(map.remove(&9), None);
    assert_eq!((map.widget().appended.get(), map.widget().removed.get()), (3, 1));
    assert_eq!(map.remove(&2), Some(Row(20)));
    assert_eq!((map.widget().appended.get(), map.widget().removed.get()), (3, 2));
    let _ = map.insert(3, 30);
    map.clear();
    assert_eq!((map.widget().appended.get(), map.widget().removed.get()), (4, 4));
    assert_eq!(map.len(), 0);
}

#[test]
fn a_guard_reads_and_writes_like_a_reference() {
    let mut map: FactoryHashMap<u64, Counter> = FactoryHashMap::new(ListBox::default());
    map.insert(1, 10);
    {
        let mut guard = map.get_mut(&1).unwrap();
        assert_eq!(guard.value, 10);
        guard.value = 12;
        assert_eq!((*guard).value, 12);
        *guard = Counter { label: "other".to_string(), value: 13 };
    }
    assert_eq!(map.get(&1), Some(&Counter { label: "other".to_string(), value: 13 }));
    assert_eq!(children(&map), vec!["counter-1".to_string()]);
}

#[test]
fn square_brackets_read_a_component_that_is_there() {
    let mut map: FactoryHashMap<u64, Counter> = FactoryHashMap::new(ListBox::default());
    map.insert(4, 40);
    map.insert(5, 50);
    assert_eq!(map[&4].value, 40);
    assert_eq!(map[&5].label, "counter-5");
}

#[test]
fn a_copy_builds_every_component_anew() {
    let mut map: FactoryHashMap<u64, Item> =
        FactoryHashMap::from_vec(vec![(1, 10), (2, 20)], SharedBox::default());
    map.broadcast(());
    let mut copy = map.clone();
    assert_eq!(copy.len(), 2);
    assert_eq!(copy.get(&1), Some(&Item(110)));
    assert_eq!(copy.get(&2), Some(&Item(120)));
    assert!(copy.take_pending().is_empty());
    assert_eq!(map.get(&1), Some(&Item(10)));
    let mut attached = map.widget().children.borrow().clone();
    attached.sort();
    assert_eq!(attached, vec![10, 20, 110, 120]);
}
