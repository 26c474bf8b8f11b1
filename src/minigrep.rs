use vstd::prelude::*;

verus! {

/// What to search for, and in which file.
pub struct Config {
    pub query: String,
    pub file_path: String,
}

impl Config {
    /// Reads the query and the file path from `args[1]` and `args[2]`
    /// (`args[0]` is the program's name).
    pub fn build(args: &[String]) -> (r: Result<Config, &'static str>)
        ensures
            args@.len() < 3 <==> r is Err,
            r matches Err(e) ==> e@ == "not enough arguments"@,
            r matches Ok(c) ==> c.query@ == args@[1]@ && c.file_path@ == args@[2]@,
    {
        if args.len() < 3 {
            return Err("not enough arguments");
        }
        let query = args[1].clone();
        let file_path = args[2].clone();
        Ok(Config { query, file_path })
    }
}

/// A pair of coordinates.
pub struct Bar {
    pub x: i32,
    pub y: i32,
}

impl Bar {
    pub fn new(x: i32, y: i32) -> (r: Bar)
        ensures
            r.x == x,
            r.y == y,
    {
        Bar { x, y }
    }
}

} // verus!
