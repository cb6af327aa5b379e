//! Thread-safety markers: a pair is transferable or shareable across threads
//! exactly when the owner and the dependent both are. The marker impls are
//! derived structurally, so a thread-safe owner/dependent combination yields
//! a thread-safe pair; these checks pin the positive direction at compile
//! time.

use pair::{HasDependent, Owner, Pair};
use std::convert::Infallible;

#[derive(Debug)]
struct Buff(String);

impl HasDependent for Buff {
    type Dependent = Vec<String>;
}

impl Owner for Buff {
    type Context = ();
    type Error = Infallible;

    fn make_dependent(&self, (): ()) -> Result<Vec<String>, Infallible> {
        Ok(self.0.split_whitespace().map(str::to_string).collect())
    }
}

fn require_send<T: Send>(value: T) -> T {
    value
}

fn require_sync<T: Sync>(value: T) -> T {
    value
}

#[test]
fn pair_of_send_sync_parts_is_send_sync() {
    let pair = Pair::new(Buff(String::from("this is a test")));

    // Moving the pair through a Send-requiring and a Sync-requiring hop
    // changes nothing about what it holds.
    let pair = require_send(pair);
    let pair = require_sync(pair);

    assert_eq!(pair.owner().0, "this is a test");
    assert_eq!(
        pair.with_dependent(|parsed| parsed),
        &["this", "is", "a", "test"]
    );

    let owner = pair.into_owner();
    assert_eq!(owner.0, "this is a test");
}
