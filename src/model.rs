use vstd::prelude::*;

verus! {

/// The failures a repository reports.
#[derive(Debug, PartialEq, Eq)]
pub enum RepositoryError {
    /// No connection to the store could be obtained.
    ConnectionError(String),
    /// A read by primary key matched no row.
    NotFound,
    /// A statement, a commit or a rollback failed.
    StorageError(String),
    /// The row that an update names does not exist, or no id was assigned.
    IdDoesNotExist,
    /// The caller aborted the operation.
    OperationCancelled,
    /// A color text that is none of the enumerated names.
    InvalidColor(String),
}

/// The colors a bicycle can have.
#[derive(Clone, Copy, Debug, PartialEq, Eq, Structural)]
pub enum Color {
    Blue,
    Red,
    White,
    Black,
    Gray,
}

/// The literal spelling of a color.
pub open spec fn color_text(c: Color) -> Seq<char> {
    match c {
        Color::Blue => "Blue"@,
        Color::Red => "Red"@,
        Color::White => "White"@,
        Color::Black => "Black"@,
        Color::Gray => "Gray"@,
    }
}

/// The color whose spelling is exactly `s`, if there is one.
pub open spec fn color_of(s: Seq<char>) -> Option<Color> {
    if s == color_text(Color::Blue) {
        Some(Color::Blue)
    } else if s == color_text(Color::Red) {
        Some(Color::Red)
    } else if s == color_text(Color::White) {
        Some(Color::White)
    } else if s == color_text(Color::Black) {
        Some(Color::Black)
    } else if s == color_text(Color::Gray) {
        Some(Color::Gray)
    } else {
        None
    }
}

fn same_text(a: &str, b: &str) -> (r: bool)
    ensures
        r == (a@ == b@),
{
    a.to_owned() == b.to_owned()
}

impl Color {
    /// The literal spelling of this color.
    pub fn to_text(&self) -> (r: &'static str)
        ensures
            r@ == color_text(*self),
    {
        match self {
            Color::Blue => "Blue",
            Color::Red => "Red",
            Color::White => "White",
            Color::Black => "Black",
            Color::Gray => "Gray",
        }
    }

    /// Reads a color from its exact, case-sensitive spelling.
    pub fn parse(s: &str) -> (r: Result<Color, RepositoryError>)
        ensures
            match color_of(s@) {
                Some(c) => r == Ok::<Color, RepositoryError>(c),
                None => r matches Err(RepositoryError::InvalidColor(t)) && t@ == s@,
            },
    {
        if same_text(s, "Blue") {
            Ok(Color::Blue)
        } else if same_text(s, "Red") {
            Ok(Color::Red)
        } else if same_text(s, "White") {
            Ok(Color::White)
        } else if same_text(s, "Black") {
            Ok(Color::Black)
        } else if same_text(s, "Gray") {
            Ok(Color::Gray)
        } else {
            Err(RepositoryError::InvalidColor(s.to_owned()))
        }
    }
}

/// Every color is read back from its own spelling.
pub proof fn lemma_color_round_trip(c: Color)
    ensures
        color_of(color_text(c)) == Some(c),
{
    reveal_strlit("Blue");
    reveal_strlit("Red");
    reveal_strlit("White");
    reveal_strlit("Black");
    reveal_strlit("Gray");
    assert("Blue"@.len() == 4 && "Red"@.len() == 3 && "White"@.len() == 5);
    assert("Black"@.len() == 5 && "Gray"@.len() == 4);
    assert("Blue"@[0] != "Gray"@[0]);
    assert("White"@[0] != "Black"@[0]);
}

/// A bicycle; an `id` of 0 means that it was not stored yet.
#[derive(Clone, Debug)]
pub struct Bicycle {
    pub id: i64,
    pub model: String,
    pub color: Color,
}

impl Bicycle {
    /// Builds a bicycle from raw fields, reading the color from its spelling.
    pub fn new(id: i64, model: String, color: &str) -> (r: Result<Bicycle, RepositoryError>)
        ensures
            match color_of(color@) {
                Some(c) => r matches Ok(b) && b.id == id && b.model == model && b.color == c,
                None => r matches Err(RepositoryError::InvalidColor(t)) && t@ == color@,
            },
    {
        match Color::parse(color) {
            Ok(c) => Ok(Bicycle { id, model, color: c }),
            Err(e) => Err(e),
        }
    }

    /// A copy of this bicycle that shares nothing with it.
    pub fn fresh_copy(&self) -> (r: Bicycle)
        ensures
            r == *self,
    {
        Bicycle { id: self.id, model: self.model.clone(), color: self.color }
    }
}

} // verus!
