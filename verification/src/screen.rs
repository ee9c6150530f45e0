//! A screen made of components of any kind that can be drawn.

use vstd::prelude::*;
use vstd::string::*;

verus! {

/// Something that can be drawn.
pub trait Draw {
    /// What a drawing of this component shows. Each kind of component says what
    /// that is; one that does not is only known to draw the same thing every time.
    open spec fn drawing(&self) -> Seq<char> {
        arbitrary()
    }

    /// Draws the component.
    fn draw(&self) -> (picture: String)
        ensures
            picture@ == self.drawing(),
    ;
}

/// A screen: its components, from first to last, each of a type of its own.
pub struct Screen {
    pub components: Vec<Box<dyn Draw>>,
}

impl Screen {
    /// Draws every component once, in order, and returns the drawings.
    pub fn run(&self) -> (pictures: Vec<String>)
        ensures
            pictures@.len() == self.components@.len(),
            forall|i: int|
                0 <= i < pictures@.len() ==> (#[trigger] pictures@[i])@
                    == self.components@[i].drawing(),
    {
        let mut pictures: Vec<String> = Vec::new();
        let mut i: usize = 0;
        while i < self.components.len()
            invariant
                i <= self.components@.len(),
                pictures@.len() == i,
                forall|k: int|
                    0 <= k < i ==> (#[trigger] pictures@[k])@ == self.components@[k].drawing(),
            decreases self.components@.len() - i,
        {
            let picture = self.components[i].draw();
            pictures.push(picture);
            i += 1;
        }
        pictures
    }
}

/// A button with a label.
pub struct Button {
    pub width: u32,
    pub height: u32,
    pub label: String,
}

impl Draw for Button {
    open spec fn drawing(&self) -> Seq<char> {
        "Draw button!"@
    }

    fn draw(&self) -> (picture: String) {
        String::from_str("Draw button!")
    }
}

} // verus!
