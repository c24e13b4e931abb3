//! Fighting behaviour of characters.
use vstd::prelude::*;
use crate::classes::SerialisedShrekSuperSlamGameObject;
use crate::console::Console;
use crate::errors::Error;
use crate::files::bin::bin::Bin;

verus! {

/// Structure representing the in-game `Game::BehaviorFightingControlShrek`
/// object type.
///
/// This object controls some kind of fighting behaviour, likely at runtime.
#[derive(Debug)]
pub struct BehaviorFightingControlShrek {}

impl SerialisedShrekSuperSlamGameObject for BehaviorFightingControlShrek {
    open spec fn class_hash() -> u32 {
        0xD306D805
    }

    open spec fn class_name() -> Seq<char> {
        "Game::BehaviorFightingControlShrek"@
    }

    open spec fn class_size() -> nat {
        0xF0
    }

    open spec fn read_error(raw: Seq<u8>, c: Console, offset: int) -> Option<Error> {
        None
    }

    open spec fn is_read_of(&self, raw: Seq<u8>, c: Console, offset: int) -> bool {
        true
    }

    /// Returns the hashcode for the `Game::BehaviorFightingControlShrek` in-game object.
    fn hash() -> (h: u32) {
        0xD306D805
    }

    /// Returns the name of the in-game class.
    fn name() -> (n: &'static str) {
        "Game::BehaviorFightingControlShrek"
    }

    /// Returns the size of a serialised `Game::BehaviorFightingControlShrek` object.
    fn size() -> (s: usize) {
        0xF0
    }

    /// Return a new `BehaviorFightingControlShrek`. Nothing of the object is read.
    ///
    /// Prefer calling [`Bin::get_object_from_offset`] rather than calling
    /// this method.
    fn new(_bin: &Bin, _offset: usize) -> (r: Result<BehaviorFightingControlShrek, Error>) {
        Ok(BehaviorFightingControlShrek {})
    }

    proof fn lemma_registered() {
    }
}

/// Structure representing the in-game `Game::BehaviorAIFighting` object type.
///
/// This object controls some kind of fighting behaviour, likely at runtime,
/// and likely for AI rather than player characters.
#[derive(Debug)]
pub struct BehaviorAiFighting {}

impl SerialisedShrekSuperSlamGameObject for BehaviorAiFighting {
    open spec fn class_hash() -> u32 {
        0xE2AD9980
    }

    open spec fn class_name() -> Seq<char> {
        "Game::BehaviorAIFighting"@
    }

    open spec fn class_size() -> nat {
        0x350
    }

    open spec fn read_error(raw: Seq<u8>, c: Console, offset: int) -> Option<Error> {
        None
    }

    open spec fn is_read_of(&self, raw: Seq<u8>, c: Console, offset: int) -> bool {
        true
    }

    /// Returns the hashcode for the `Game::BehaviorAIFighting` in-game object.
    fn hash() -> (h: u32) {
        0xE2AD9980
    }

    /// Returns the name of the in-game class.
    fn name() -> (n: &'static str) {
        "Game::BehaviorAIFighting"
    }

    /// Returns the size of a serialised `Game::BehaviorAIFighting` object.
    fn size() -> (s: usize) {
        0x350
    }

    /// Return a new `BehaviorAiFighting`. Nothing of the object is read.
    ///
    /// Prefer calling [`Bin::get_object_from_offset`] rather than calling
    /// this method.
    fn new(_bin: &Bin, _offset: usize) -> (r: Result<BehaviorAiFighting, Error>) {
        Ok(BehaviorAiFighting {})
    }

    proof fn lemma_registered() {
    }
}

} // verus!
