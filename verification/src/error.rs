use vstd::prelude::*;

verus! {

/// The errors the bot's components surface; each variant carries a short
/// description of what failed.
#[derive(Debug, Clone)]
pub enum MyError {
    SerdeJson(String),
    Teloxide(String),
    IoError(String),
    Log4rsConfigError(String),
    DotenvError(String),
    Custom(String),
    InMemStorage(String),
    Str(String),
    SetLoggerError(String),
}

impl MyError {
    /// The description the variant carries.
    pub fn detail(&self) -> (r: &String)
        ensures
            *self matches MyError::SerdeJson(d) ==> r@ == d@,
            *self matches MyError::Teloxide(d) ==> r@ == d@,
            *self matches MyError::IoError(d) ==> r@ == d@,
            *self matches MyError::Log4rsConfigError(d) ==> r@ == d@,
            *self matches MyError::DotenvError(d) ==> r@ == d@,
            *self matches MyError::Custom(d) ==> r@ == d@,
            *self matches MyError::InMemStorage(d) ==> r@ == d@,
            *self matches MyError::Str(d) ==> r@ == d@,
            *self matches MyError::SetLoggerError(d) ==> r@ == d@,
    {
        match self {
            MyError::SerdeJson(d) => d,
            MyError::Teloxide(d) => d,
            MyError::IoError(d) => d,
            MyError::Log4rsConfigError(d) => d,
            MyError::DotenvError(d) => d,
            MyError::Custom(d) => d,
            MyError::InMemStorage(d) => d,
            MyError::Str(d) => d,
            MyError::SetLoggerError(d) => d,
        }
    }
}

} // verus!
