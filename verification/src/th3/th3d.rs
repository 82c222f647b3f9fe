//! Dynamic dispatch by hand: a value of any music genre is erased to a
//! table of what the genre's methods give, and the erased value answers
//! through that table as the genre itself would.

use std::marker::PhantomData;
use vstd::prelude::*;

verus! {

/// A music genre: the line it sounds, and the line naming its instrument
/// if it has one. A genre that says nothing sounds "Do ray me" and names no
/// instrument.
pub trait Music {
    /// The line the genre sounds; "Do ray me" unless the genre says
    /// otherwise.
    fn sound(&self) -> (r: &'static str)
        default_ensures
            r@ == "Do ray me"@,
    {
        "Do ray me"
    }

    /// The line naming the genre's instrument, or `None`; `None` unless the
    /// genre says otherwise.
    fn instrument(&self) -> (r: Option<&'static str>)
        default_ensures
            r is None,
    {
        None
    }
}

/// Rock: sounds "Rock on!!!", plays the guitar.
pub struct Rock;

/// Pop: sounds "Yeee heee..", names no instrument.
pub struct Pop;

/// Classic: keeps the plain sound "Do ray me", names no instrument.
pub struct Classic;

impl Music for Rock {
    fn sound(&self) -> (r: &'static str)
        ensures
            r@ == "Rock on!!!"@,
    {
        "Rock on!!!"
    }

    fn instrument(&self) -> (r: Option<&'static str>)
        ensures
            r matches Some(s) && s@ == "Instrument - Guitar: \u{1F3B8}"@,
    {
        Some("Instrument - Guitar: \u{1F3B8}")
    }
}

impl Music for Pop {
    fn sound(&self) -> (r: &'static str)
        ensures
            r@ == "Yeee heee.."@,
    {
        "Yeee heee.."
    }
}

impl Music for Classic {}

/// The table of an erased genre: what each of its methods gives.
pub struct MusicFunctions {
    sound_wrapper: &'static str,
    instrument_wrapper: Option<&'static str>,
}

/// A genre with its type erased, borrowed for `'a`: it answers through
/// the table made from the genre when it was erased.
pub struct AnyMusic<'a> {
    functions: MusicFunctions,
    _mkr: PhantomData<&'a ()>,
}

impl<'a> AnyMusic<'a> {
    /// The line the erased genre sounds.
    pub closed spec fn sound_line(&self) -> &'static str {
        self.functions.sound_wrapper
    }

    /// The line naming the erased genre's instrument, if it names one.
    pub closed spec fn instrument_line(&self) -> Option<&'static str> {
        self.functions.instrument_wrapper
    }

    /// Erases the type of `val`, keeping the table of what its methods give.
    pub fn new<T: Music>(val: &'a T) -> (r: Self)
        ensures
            call_ensures(T::sound, (val,), r.sound_line()),
            call_ensures(T::instrument, (val,), r.instrument_line()),
    {
        AnyMusic {
            functions: MusicFunctions {
                sound_wrapper: val.sound(),
                instrument_wrapper: val.instrument(),
            },
            _mkr: PhantomData,
        }
    }

    /// The line the erased genre sounds: the one the genre itself sounds.
    pub fn sound(&self) -> (r: &'static str)
        ensures
            r == self.sound_line(),
    {
        self.functions.sound_wrapper
    }

    /// The line naming the erased genre's instrument, or `None`: what the
    /// genre itself gives.
    pub fn instrument(&self) -> (r: Option<&'static str>)
        ensures
            r == self.instrument_line(),
    {
        self.functions.instrument_wrapper
    }
}

} // verus!
