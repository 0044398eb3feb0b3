use hash_injector::state::SignalState;

#[test]
fn it_works() {}

#[test]
fn lib_it_works() {}

#[test]
fn hash_it_works() {}

#[test]
fn state_it_works() {
    SignalState::new_nothing_written().assert_nothing_written_or_ordinary_hash();
}
