use vstd::prelude::*;
use vstd::string::StringExecFns;

verus! {

/// One replication rule: a watched source directory and the ordered list of
/// directories that each completed file is copied to.
#[derive(Debug)]
pub struct WatchEntry {
    pub src: String,
    pub dest: Vec<String>,
}

/// The whole configuration: a format version and the ordered list of rules.
#[derive(Debug)]
pub struct Config {
    pub version: i32,
    pub entries: Vec<WatchEntry>,
}

/// The path of the entry `name` inside directory `dir`: the two joined by one `/`.
pub open spec fn join(dir: Seq<char>, name: Seq<char>) -> Seq<char> {
    dir + seq!['/'] + name
}

/// Builds the path of the entry `name` inside directory `dir`.
pub fn join_path(dir: &str, name: &str) -> (r: String)
    ensures
        r@ == join(dir@, name@),
{
    let sep = "/";
    proof {
        reveal_strlit("/");
    }
    let mut r = String::from_str(dir);
    r.append(sep);
    r.append(name);
    r
}

} // verus!
