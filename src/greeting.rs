use vstd::prelude::*;

verus! {

/// The text of the greeting command for `name`.
pub open spec fn greeting_text(name: Seq<char>) -> Seq<char> {
    "Hello, "@ + name + "! You've been greeted from Rust!"@
}

/// The line that reports where a store file would live: the application
/// data directory and the file name, separated by one space.
pub open spec fn location_text(app_dir: Seq<char>, file_name: Seq<char>) -> Seq<char> {
    app_dir + " "@ + file_name
}

/// Greets `name`.
pub fn greet(name: &str) -> (r: String)
    ensures
        r@ == greeting_text(name@),
{
    let mut s = String::from_str("Hello, ");
    s.append(name);
    s.append("! You've been greeted from Rust!");
    s
}

/// Describes the location of `file_name` inside the application data
/// directory `app_dir`.
pub fn location_line(app_dir: &str, file_name: &str) -> (r: String)
    ensures
        r@ == location_text(app_dir@, file_name@),
{
    let mut s = String::from_str(app_dir);
    s.append(" ");
    s.append(file_name);
    s
}

} // verus!
