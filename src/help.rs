use vstd::prelude::*;

verus! {

/// The usage text of the command-line tool.
pub open spec fn usage_text() -> Seq<char> {
    "\nusage: vault <command> <arg>\n-- <arg> if applicable\n\n1. See help\n   vault help\n\n2. Get value from vault\n   vault get <key>\n\n3. Add new value\n   vault add\n   -- the command will then prompt to provide the key\n      and value for new entry\n\n4. Print all values\n   vault ls\n        "@
}

/// Help on how to use the tool.
pub struct Help {}

impl Help {
    /// Returns the usage text.
    pub fn get_help() -> (r: String)
        ensures
            r@ == usage_text(),
    {
        "\nusage: vault <command> <arg>\n-- <arg> if applicable\n\n1. See help\n   vault help\n\n2. Get value from vault\n   vault get <key>\n\n3. Add new value\n   vault add\n   -- the command will then prompt to provide the key\n      and value for new entry\n\n4. Print all values\n   vault ls\n        ".to_owned()
    }
}

} // verus!
