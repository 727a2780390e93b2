use wbtech_l0_demo::cache::{get_order_key, MemCache, DEFAULT_CACHE_TTL_SECS};
use wbtech_l0_demo::error::Error;
use wbtech_l0_demo::model::{
    Currency, Delivery, Item, ItemStatus, Locale, Order, Payment, Percent, Timestamp,
};
use wbtech_l0_demo::read::{get_order_through, ReadAction, ReadState, ReadThrough};
use wbtech_l0_demo::repo::{compose_order, reconcile_items, require_found, OrderRepoDto};
use wbtech_l0_demo::state::AppState;
use wbtech_l0_demo::store::MemStore;

fn item(chrt_id: i32, name: &str) -> Item {
    Item {
        id: None,
        chrt_id,
        track_number: "WBILMTESTTRACK".to_owned(),
        price: 453,
        rid: "ab4219087a764ae0btest".to_owned(),
        name: name.to_owned(),
        sale: Percent::try_from(30).unwrap(),
        size: "0".to_owned(),
        total_price: 317,
        nm_id: 2389212,
        brand: "Vivienne Sabo".to_owned(),
        status: ItemStatus::StatusCode,
    }
}

fn order(uid: &str, transaction: &str, items: Vec<Item>) -> Order {
    Order {
        order_uid: uid.to_owned(),
        track_number: "WBILMTESTTRACK".to_owned(),
        entry: "WBIL".to_owned(),
        delivery: Delivery {
            id: None,
            name: "Test Testov".to_owned(),
            phone: "+9720000000".to_owned(),
            zip: "2639809".to_owned(),
            city: "Kiryat Mozkin".to_owned(),
            address: "Ploshad Mira 15".to_owned(),
            region: "Kraiot".to_owned(),
            email: "test@gmail.com".to_owned(),
        },
        payment: Payment {
            transaction: transaction.to_owned(),
            request_id: String::new(),
            currency: Currency::USD,
            provider: "wbpay".to_owned(),
            amount: 1817,
            payment_dt: 1637907727,
            bank: "alpha".to_owned(),
            delivery_cost: 1500,
            goods_total: 317,
            custom_fee: Percent::try_from(0).unwrap(),
        },
        items,
        locale: Locale::EN,
        internal_signature: String::new(),
        customer_id: "test".to_owned(),
        delivery_service: "meest".to_owned(),
        shardkey: "9".to_owned(),
        sm_id: 99,
        date_created: Timestamp { secs: 1637907739, nanos: 0 },
        oof_shard: "1".to_owned(),
    }
}

fn without_ids(mut o: Order) -> Order {
    o.delivery.id = None;
    for i in o.items.iter_mut() {
        i.id = None;
    }
    o
}

#[test]
fn get_items_of_no_order() {
    let mut store = MemStore::new();
    let found = store.get_items("defenetly_does_not_exist_order_id").unwrap();
    let answer = require_found(found, "defenetly_does_not_exist_order_id", "order items");
    let err = answer.unwrap_err();
    assert!(err.is_not_found());
    assert_eq!(err.status_code(), 404);
}

#[test]
fn get_items_of_order_without_items() {
    let mut store = MemStore::new();
    store.create_order(order("b563feb7b2b84b6test", "t1", vec![])).unwrap();
    let found = store.get_items("b563feb7b2b84b6test").unwrap();
    let answer = require_found(found, "b563feb7b2b84b6test", "order items");
    assert_eq!(answer.unwrap(), Vec::<Item>::new());
}

#[test]
fn concrete_scenario_reads_back_and_misses_unknown() {
    let mut store = MemStore::new();
    let given = order("b563feb7b2b84b6test", "b563feb7b2b84b6test", vec![item(9934930, "Mascaras")]);
    store.create_order(given.copy()).unwrap();
    let mut cache: Option<MemCache> = None;

    let read = get_order_through(&mut store, &mut cache, "b563feb7b2b84b6test").unwrap();
    assert!(read.delivery.id.is_some());
    assert_eq!(read.items.len(), 1);
    assert!(read.items[0].id.is_some());
    assert_eq!(read.items[0].status.code(), 202);
    assert_eq!(without_ids(read), given);

    let missing = get_order_through(&mut store, &mut cache, "unknown").unwrap_err();
    assert!(missing.is_not_found());
    assert_eq!(missing.status_code(), 404);
}

#[test]
fn failed_create_leaves_store_unchanged() {
    let mut store = MemStore::new();
    store.create_order(order("a", "t1", vec![item(1, "x")])).unwrap();
    let next = store.next_id;

    let same_uid = store.create_order(order("a", "t2", vec![item(2, "y")]));
    assert!(matches!(same_uid, Err(Error::Conflict { .. })));
    let same_payment = store.create_order(order("b", "t1", vec![item(3, "z")]));
    assert!(matches!(same_payment, Err(Error::Conflict { .. })));

    assert_eq!(store.orders.len(), 1);
    assert_eq!(store.next_id, next);
    assert_eq!(store.get_order("b").unwrap(), None);
    assert_eq!(store.get_items("b").unwrap(), None);
}

#[test]
fn items_keep_their_order() {
    let mut store = MemStore::new();
    let items = vec![item(3, "c"), item(1, "a"), item(2, "b")];
    store.create_order(order("o", "t", items.clone())).unwrap();
    let read = store.get_items("o").unwrap().unwrap();
    let names: Vec<&str> = read.iter().map(|i| i.name.as_str()).collect();
    assert_eq!(names, vec!["c", "a", "b"]);
    assert_eq!(read[0].id, Some(2));
    assert_eq!(read[1].id, Some(3));
    assert_eq!(read[2].id, Some(4));
    assert_eq!(store.get_delivery("o").unwrap().unwrap().id, Some(1));
    assert_eq!(store.get_payment("o").unwrap().unwrap().transaction, "t");
    assert_eq!(store.get_delivery("p").unwrap(), None);
    assert_eq!(store.get_payment("p").unwrap(), None);
}

#[test]
fn second_read_is_served_by_the_cache() {
    let mut store = MemStore::new();
    store.create_order(order("o", "t", vec![item(1, "a")])).unwrap();
    let mut cache = Some(MemCache::new());

    let first = get_order_through(&mut store, &mut cache, "o").unwrap();
    assert_eq!(store.reads, 1);
    let second = get_order_through(&mut store, &mut cache, "o").unwrap();
    assert_eq!(store.reads, 1);
    assert_eq!(first, second);

    // not-found is never cached
    assert!(get_order_through(&mut store, &mut cache, "x").is_err());
    assert!(get_order_through(&mut store, &mut cache, "x").is_err());
    assert_eq!(store.reads, 3);
}

#[test]
fn without_cache_every_read_goes_to_the_store() {
    let mut store = MemStore::new();
    store.create_order(order("o", "t", vec![])).unwrap();
    let mut cache: Option<MemCache> = None;
    get_order_through(&mut store, &mut cache, "o").unwrap();
    get_order_through(&mut store, &mut cache, "o").unwrap();
    assert_eq!(store.reads, 2);
}

#[test]
fn cache_keys_and_entries() {
    assert_eq!(get_order_key("b563feb7b2b84b6test"), "orderb563feb7b2b84b6test");
    assert_eq!(get_order_key(""), "order");
    assert_eq!(DEFAULT_CACHE_TTL_SECS, 60);
    let mut cache = MemCache::new();
    assert_eq!(cache.get_order("o").unwrap(), None);
    let o = order("o", "t", vec![]);
    cache.insert_order(&o).unwrap();
    assert_eq!(cache.entries[0].key, "ordero");
    assert_eq!(cache.get_order("o").unwrap(), Some(o));
}

#[test]
fn read_machine_steps() {
    let (mut read, action) = ReadThrough::start("o", true);
    assert!(matches!(action, ReadAction::AskCache));
    assert_eq!(read.state, ReadState::CacheLookup);
    // a failing cache is a miss
    let action = read.on_cache(Err(Error::Cache { message: "down".to_owned() }));
    assert!(matches!(action, ReadAction::AskStore));
    let action = read.on_store(Ok(Some(order("o", "t", vec![]))));
    assert!(matches!(action, ReadAction::RespondAndPopulate(_)));
    assert_eq!(read.state, ReadState::Finished);

    let (mut read, action) = ReadThrough::start("o", false);
    assert!(matches!(action, ReadAction::AskStore));
    match read.on_store(Ok(None)) {
        ReadAction::Fail(Error::NotFound { id_name, id_val, target }) => {
            assert_eq!(id_name, "order_id");
            assert_eq!(id_val, "o");
            assert_eq!(target, "order");
        }
        other => panic!("unexpected {:?}", other),
    }

    let (mut read, _) = ReadThrough::start("o", true);
    let action = read.on_cache(Ok(Some(order("o", "t", vec![]))));
    assert!(matches!(action, ReadAction::Respond(_)));
    let (mut read, _) = ReadThrough::start("o", false);
    let action = read.on_store(Err(Error::Store { message: "gone".to_owned() }));
    assert!(matches!(action, ReadAction::Fail(Error::Store { .. })));
}

fn row(uid: &str) -> OrderRepoDto {
    OrderRepoDto {
        order_uid: uid.to_owned(),
        track_number: "T".to_owned(),
        entry: "E".to_owned(),
        delivery_id: 1,
        payment_id: "t".to_owned(),
        locale: Locale::RU,
        internal_signature: String::new(),
        customer_id: "c".to_owned(),
        delivery_service: "d".to_owned(),
        shardkey: "9".to_owned(),
        sm_id: 5,
        date_created: Timestamp { secs: 0, nanos: 0 },
        oof_shard: "1".to_owned(),
    }
}

#[test]
fn compose_and_reconcile() {
    let o = order("o", "t", vec![item(1, "a")]);
    let composed = compose_order(
        row("o"),
        Some(o.delivery.clone()),
        Some(o.payment.clone()),
        o.items.clone(),
    )
    .unwrap();
    assert_eq!(composed.order_uid, "o");
    assert_eq!(composed.locale, Locale::RU);
    assert_eq!(composed.sm_id, 5);
    assert_eq!(composed.items, o.items);

    match compose_order(row("o"), None, Some(o.payment.clone()), vec![]) {
        Err(Error::Integrity { target, id_val }) => {
            assert_eq!(target, "delivery");
            assert_eq!(id_val, "o");
        }
        other => panic!("unexpected {:?}", other),
    }
    let e = compose_order(row("o"), Some(o.delivery.clone()), None, vec![]).unwrap_err();
    assert!(matches!(e, Error::Integrity { ref target, .. } if target == "payment"));
    assert_eq!(e.status_code(), 500);

    assert_eq!(reconcile_items(0, vec![item(1, "a")]), None);
    assert_eq!(reconcile_items(1, vec![]), Some(vec![]));
    assert_eq!(reconcile_items(1, vec![item(1, "a")]), Some(vec![item(1, "a")]));
}

#[test]
fn error_statuses() {
    let nf = Error::not_found("order_id", "x", "order");
    assert!(nf.is_not_found());
    assert_eq!(nf.status_code(), 404);
    let invalid = Error::Invalid(wbtech_l0_demo::model::ValidationError::PhoneWithoutPlus);
    assert_eq!(invalid.status_code(), 422);
    assert!(!invalid.is_not_found());
    assert_eq!(Error::Store { message: String::new() }.status_code(), 500);
    assert_eq!(Error::Cache { message: String::new() }.status_code(), 500);
    assert_eq!(require_found(Some(3), "x", "y").unwrap(), 3);
}

#[test]
fn app_state_holds_what_it_was_given() {
    let state = AppState::new(7u8, Some("c".to_owned()));
    assert_eq!(state.repo, 7);
    assert_eq!(state.cache.as_deref(), Some("c"));
    let none: AppState<u8, String> = AppState::new(1, None);
    assert!(none.clone().cache.is_none());
}

#[test]
fn invalid_order_is_refused_before_any_write() {
    let mut store = MemStore::new();
    let mut bad = order("o", "t", vec![item(1, "a")]);
    bad.delivery.phone = "9720000000".to_owned();
    assert_eq!(
        bad.validate(),
        Err(wbtech_l0_demo::model::ValidationError::PhoneWithoutPlus)
    );
    let refused = store.create_order(bad).unwrap_err();
    assert_eq!(refused.status_code(), 422);
    assert_eq!(store.orders.len(), 0);
    assert_eq!(store.next_id, 1);
    assert_eq!(store.get_order("o").unwrap(), None);
}
