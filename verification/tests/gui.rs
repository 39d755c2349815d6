use std::cell::Cell;
use std::rc::Rc;

use docflow::gui::{Button, Draw, Screen};

struct CountingShape {
    draws: Rc<Cell<u32>>,
}

impl Draw for CountingShape {
    fn draw(&self) {
        self.draws.set(self.draws.get() + 1);
    }
}

#[test]
fn run_draws_every_component() {
    let draws = Rc::new(Cell::new(0u32));
    let screen = Screen {
        components: vec![
            Box::new(CountingShape { draws: Rc::clone(&draws) }),
            Box::new(CountingShape { draws: Rc::clone(&draws) }),
            Box::new(CountingShape { draws: Rc::clone(&draws) }),
        ],
    };
    screen.run();
    assert_eq!(3, draws.get());
}

#[test]
fn run_accepts_an_empty_screen() {
    let screen = Screen { components: vec![] };
    screen.run();
}

#[test]
fn buttons_are_drawable_components() {
    let screen = Screen {
        components: vec![
            Box::new(Button { width: 100, height: 100, label: String::from("ok") }),
            Box::new(Button { width: 50, height: 20, label: String::from("cancel") }),
        ],
    };
    screen.run();
}
