use cfsm::{State, FSM};

#[derive(Debug, Copy, Clone)]
struct TestState {
    x: i32,
}

/// A state given as the function that runs it.
#[derive(Copy, Clone)]
struct Step(fn(&mut TestState) -> FSM<TestState, Step>);

impl State<TestState> for Step {
    fn run(self, machine: &mut TestState) -> FSM<TestState, Step> {
        (self.0)(machine)
    }
}

/// For test purposes
impl TestState {
    fn a(&mut self) -> FSM<TestState, Step> {
        self.x += 1;
        println!("A: {:?}", &self);
        FSM::transition(*self, Step(Self::b))
    }
    fn b(&mut self) -> FSM<TestState, Step> {
        self.x += 1;
        println!("B: {:?}", &self);
        FSM::transition(*self, Step(Self::c))
    }
    fn c(&mut self) -> FSM<TestState, Step> {
        self.x += 1;
        println!("C: {:?}", &self);
        FSM::transition(*self, Step(Self::a))
    }
}

#[test]
fn test_fsm() {
    // Initialize
    let mut state = FSM::transition(TestState { x: 0 }, Step(TestState::a));

    for _ in 0..20 {
        state.update();
    }

    println!("Expose: {}", state.get().x);
    assert_eq!(state.get().x, 20);

    state.get_mut().x = 0;

    println!("Expose: {}", state.get().x);
    assert_eq!(state.get().x, 0);

    state.update();
    assert_eq!(state.get().x, 1);
}

#[test]
fn function_states_take_turns() {
    let mut state = FSM::transition(TestState { x: 0 }, Step(TestState::a));
    state.update();
    state.update();
    // Two steps from `a` leave `c` pending: run by hand, it hands on to `a`,
    // which hands on to `b`.
    let mut probe = TestState { x: 40 };
    let after_c = (*state).run(&mut probe);
    assert_eq!(after_c.get().x, 41);
    let mut probe = TestState { x: 50 };
    let after_a = (*after_c).run(&mut probe);
    assert_eq!(after_a.get().x, 51);
    assert_eq!(state.get().x, 2);
}
