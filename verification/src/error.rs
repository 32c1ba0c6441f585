use vstd::prelude::*;
use vstd::string::StringExecFns;

verus! {

/// The text of one decimal digit.
pub open spec fn digit_text(d: int) -> Seq<char> {
    if d == 0 {
        "0"@
    } else if d == 1 {
        "1"@
    } else if d == 2 {
        "2"@
    } else if d == 3 {
        "3"@
    } else if d == 4 {
        "4"@
    } else if d == 5 {
        "5"@
    } else if d == 6 {
        "6"@
    } else if d == 7 {
        "7"@
    } else if d == 8 {
        "8"@
    } else {
        "9"@
    }
}

/// A level in decimal, without leading zeros.
pub open spec fn level_text(lv: u8) -> Seq<char> {
    if lv < 10 {
        digit_text(lv as int)
    } else if lv < 100 {
        digit_text(lv as int / 10) + digit_text(lv as int % 10)
    } else {
        digit_text(lv as int / 100) + digit_text(lv as int / 10 % 10) + digit_text(lv as int % 10)
    }
}

/// What a turned-down write says of itself.
pub open spec fn conflict_text(attempted: u8, existing: u8) -> Seq<char> {
    "can't put data with level "@ + level_text(attempted) + " which exist with DataLevel "@
        + level_text(existing) + " without force"@
}

fn digit_str(d: u8) -> (text: &'static str)
    requires
        d < 10,
    ensures
        text@ == digit_text(d as int),
{
    if d == 0 {
        "0"
    } else if d == 1 {
        "1"
    } else if d == 2 {
        "2"
    } else if d == 3 {
        "3"
    } else if d == 4 {
        "4"
    } else if d == 5 {
        "5"
    } else if d == 6 {
        "6"
    } else if d == 7 {
        "7"
    } else if d == 8 {
        "8"
    } else {
        "9"
    }
}

fn append_level(out: &mut String, lv: u8)
    ensures
        final(out)@ == old(out)@ + level_text(lv),
{
    if lv >= 100 {
        out.append(digit_str(lv / 100));
    }
    if lv >= 10 {
        out.append(digit_str(lv / 10 % 10));
    }
    out.append(digit_str(lv % 10));
    assert(final(out)@ =~= old(out)@ + level_text(lv));
}

/// Why an operation of the access layer did not go through.
#[derive(Clone, Debug, PartialEq, Eq)]
pub enum DbError {
    /// The store could not be opened or created; the engine's message.
    Open(String),
    /// A read, write, batch commit or flush failed in the engine; its message.
    Engine(String),
    /// The write was turned down by the level rule: a record exists at
    /// level `existing`, above the `attempted` level, and the write was not
    /// forced.
    LevelConflict { attempted: u8, existing: u8 },
}

/// A [`DbError`] with its messages as character sequences.
pub enum DbErrorView {
    Open(Seq<char>),
    Engine(Seq<char>),
    LevelConflict { attempted: u8, existing: u8 },
}

impl View for DbError {
    type V = DbErrorView;

    open spec fn view(&self) -> DbErrorView {
        match *self {
            DbError::Open(m) => DbErrorView::Open(m@),
            DbError::Engine(m) => DbErrorView::Engine(m@),
            DbError::LevelConflict { attempted, existing } => DbErrorView::LevelConflict {
                attempted,
                existing,
            },
        }
    }
}

impl DbErrorView {
    /// What the error says of itself: the engine's message, or the two
    /// levels of a turned-down write.
    pub open spec fn message(self) -> Seq<char> {
        match self {
            DbErrorView::Open(m) => m,
            DbErrorView::Engine(m) => m,
            DbErrorView::LevelConflict { attempted, existing } => conflict_text(
                attempted,
                existing,
            ),
        }
    }
}

impl DbError {
    /// The error in words.
    pub fn message(&self) -> (text: String)
        ensures
            text@ == self@.message(),
    {
        match self {
            DbError::Open(m) => m.clone(),
            DbError::Engine(m) => m.clone(),
            DbError::LevelConflict { attempted, existing } => {
                let mut out = String::from_str("can't put data with level ");
                append_level(&mut out, *attempted);
                out.append(" which exist with DataLevel ");
                append_level(&mut out, *existing);
                out.append(" without force");
                out
            },
        }
    }

    /// True for the one error that a caller can get around by forcing the
    /// write.
    pub fn is_level_conflict(&self) -> (b: bool)
        ensures
            b == (self@ is LevelConflict),
    {
        match self {
            DbError::LevelConflict { .. } => true,
            _ => false,
        }
    }
}

} // verus!
