use jstar::conf::{Conf, Settings};
use jstar::trampoline::Trampolines;

type Cb = fn(u8) -> u8;

fn defaults() -> Settings {
    Settings { starting_stack_sz: 100, first_gc_collection_point: 20971520, heap_grow_rate: 2 }
}

fn double(x: u8) -> u8 {
    x * 2
}

#[test]
fn new_takes_the_defaults() {
    let conf: Conf<Cb, Cb> = Conf::new(defaults());
    assert_eq!(conf.starting_stack_sz, 100);
    assert_eq!(conf.first_gc_collection_point, 20971520);
    assert_eq!(conf.heap_grow_rate, 2);
    assert!(conf.error_callback.is_none());
    assert!(conf.import_callback.is_none());
}

#[test]
fn default_is_all_zero() {
    let conf: Conf<Cb, Cb> = Conf::default();
    assert_eq!(conf.starting_stack_sz, 0);
    assert_eq!(conf.first_gc_collection_point, 0);
    assert_eq!(conf.heap_grow_rate, 0);
    assert!(conf.error_callback.is_none());
    assert!(conf.import_callback.is_none());
}

#[test]
fn builders_set_one_field_each() {
    let conf: Conf<Cb, Cb> = Conf::new(defaults()).starting_stack_sz(512);
    assert_eq!(conf.starting_stack_sz, 512);
    assert_eq!(conf.first_gc_collection_point, 20971520);
    assert_eq!(conf.heap_grow_rate, 2);

    let conf = conf.first_gc_collection_point(4096);
    assert_eq!(conf.starting_stack_sz, 512);
    assert_eq!(conf.first_gc_collection_point, 4096);
    assert_eq!(conf.heap_grow_rate, 2);

    let conf = conf.heap_grow_rate(3);
    assert_eq!(conf.starting_stack_sz, 512);
    assert_eq!(conf.first_gc_collection_point, 4096);
    assert_eq!(conf.heap_grow_rate, 3);
    assert!(conf.error_callback.is_none());
    assert!(conf.import_callback.is_none());
}

#[test]
fn callback_builders_store_the_callback() {
    let conf: Conf<Cb, Cb> = Conf::new(defaults()).error_callback(double);
    assert_eq!(conf.error_callback.map(|f| f(4)), Some(8));
    assert!(conf.import_callback.is_none());

    let conf: Conf<Cb, Cb> = Conf::new(defaults()).import_callback(double);
    assert!(conf.error_callback.is_none());
    assert_eq!(conf.import_callback.map(|f| f(5)), Some(10));
}

#[test]
fn into_parts_copies_scalars_and_moves_callbacks() {
    let conf: Conf<Cb, Cb> =
        Conf::new(defaults()).heap_grow_rate(7).starting_stack_sz(64).import_callback(double);
    let (settings, trampolines): (Settings, Trampolines<Cb, Cb>) = conf.into_parts();
    assert_eq!(
        settings,
        Settings { starting_stack_sz: 64, first_gc_collection_point: 20971520, heap_grow_rate: 7 }
    );
    assert!(trampolines.error_callback.is_none());
    assert_eq!(trampolines.import_callback.map(|f| f(21)), Some(42));
}
