use vstd::prelude::*;

verus! {

/// Something that can show itself.
pub trait Printable {
    fn print(&self);
}

/// Prints a copy of each item, first to last.
pub fn print_all<T: Printable + Clone>(printable_things: Vec<T>) {
    let mut i: usize = 0;
    while i < printable_things.len()
        invariant
            i <= printable_things@.len(),
        decreases printable_things@.len() - i,
    {
        let copy_of_thing = printable_things[i].clone();
        copy_of_thing.print();
        i = i + 1;
    }
}

/// Something that can draw itself.
pub trait Drawable {
    fn draw(&self);
}

/// Draws each shape, first to last.
pub fn draw_all<T: Drawable>(shapes: Vec<T>) {
    let mut i: usize = 0;
    while i < shapes.len()
        invariant
            i <= shapes@.len(),
        decreases shapes@.len() - i,
    {
        shapes[i].draw();
        i = i + 1;
    }
}

} // verus!
