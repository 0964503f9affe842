use vstd::prelude::*;

verus! {

/// The name of the file, directly under the application's local data
/// directory, that holds the salt of the secret store.
pub const SALT_FILE_NAME: &'static str = "salt.txt";

/// The salt file's name is a single path component: it is not empty and holds
/// no separator, so joined to a directory it names a file in that directory.
pub proof fn lemma_salt_file_name_is_plain()
    ensures
        SALT_FILE_NAME@.len() == 8,
        forall|i: int|
            0 <= i < SALT_FILE_NAME@.len() ==> SALT_FILE_NAME@[i] != '/' && SALT_FILE_NAME@[i]
                != '\\',
{
    reveal_strlit("salt.txt");
}

} // verus!
