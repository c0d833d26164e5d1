use cons_list::boxes::foo;
use cons_list::closures::{call_twice, function, square};
use cons_list::generics;
use cons_list::generics::head;
use cons_list::traits::{draw_all, print_all, Drawable, Printable};
use std::cell::Cell;

#[test]
fn foo_gives_six_fives() {
    assert_eq!(foo(), (5, 5, 5, 5, 5, 5));
}

#[test]
fn square_of_positive_and_negative() {
    assert_eq!(square(20), 400);
    assert_eq!(square(-20), 400);
    assert_eq!(square(0), 0);
    assert_eq!(square(3_000_000_000), 9_000_000_000_000_000_000);
}

#[test]
fn call_twice_calls_two_times() {
    let count = Cell::new(0u32);
    call_twice(|| count.set(count.get() + 1));
    assert_eq!(count.get(), 2);
    call_twice(function);
}

#[test]
fn map_applies_in_order() {
    let v = vec![1i64, 2, 3];
    let r = generics::map(&v, |x: &i64| x * 10 + 1);
    assert_eq!(r, vec![11, 21, 31]);
    let e: Vec<i64> = Vec::new();
    assert!(generics::map(&e, |x: &i64| *x).is_empty());
    let words = generics::map(&["a", "bc"], |s: &&str| s.len());
    assert_eq!(words, vec![1, 2]);
}

#[test]
fn head_clones_first() {
    assert_eq!(head(&[7, 8, 9]), 7);
    let names = vec![String::from("first"), String::from("second")];
    assert_eq!(head(&names), "first");
}

#[derive(Clone)]
struct Tally<'a> {
    id: u32,
    seen: &'a Cell<u32>,
}

impl<'a> Printable for Tally<'a> {
    fn print(&self) {
        self.seen.set(self.seen.get() * 10 + self.id);
    }
}

impl<'a> Drawable for Tally<'a> {
    fn draw(&self) {
        self.seen.set(self.seen.get() * 10 + self.id);
    }
}

#[test]
fn print_all_visits_in_order() {
    let seen = Cell::new(0u32);
    let things = vec![Tally { id: 1, seen: &seen }, Tally { id: 2, seen: &seen }, Tally { id: 3, seen: &seen }];
    print_all(things);
    assert_eq!(seen.get(), 123);
}

#[test]
fn draw_all_visits_in_order() {
    let seen = Cell::new(0u32);
    let shapes = vec![Tally { id: 3, seen: &seen }, Tally { id: 1, seen: &seen }];
    draw_all(shapes);
    assert_eq!(seen.get(), 31);
    draw_all(Vec::<Tally>::new());
}
