//! The shuffle manager: the working area of this process on disk and the
//! URI under which its shuffle output is served.

use vstd::prelude::*;
use vstd::string::StringExecFns;
use crate::decimal::decimal_digits;
use crate::decimal::push_decimal;
use crate::workdir::work_dir_path;

verus! {

/// The path of the shuffle directory below the working directory.
pub open spec fn shuffle_dir_path(local_dir: Seq<char>) -> Seq<char> {
    local_dir + "/shuffle"@
}

/// The path of the directory that holds the output of one input partition
/// of one shuffle.
pub open spec fn output_dir_path(local_dir: Seq<char>, shuffle_id: usize, input_id: usize) -> Seq<
    char,
> {
    shuffle_dir_path(local_dir) + "/"@ + decimal_digits(shuffle_id as nat) + "/"@
        + decimal_digits(input_id as nat)
}

/// The path of the file that holds one output partition.
pub open spec fn output_file_path(
    local_dir: Seq<char>,
    shuffle_id: usize,
    input_id: usize,
    output_id: usize,
) -> Seq<char> {
    output_dir_path(local_dir, shuffle_id, input_id) + "/"@ + decimal_digits(output_id as nat)
}

/// Below a working directory named after `token` under `root`, a partition
/// file lies at `{root}/spark-local-{token}/shuffle/{shuffle}/{input}/{output}`.
pub proof fn lemma_output_layout(
    root: Seq<char>,
    token: Seq<char>,
    shuffle_id: usize,
    input_id: usize,
    output_id: usize,
)
    ensures
        output_file_path(work_dir_path(root, token), shuffle_id, input_id, output_id) == root
            + "/spark-local-"@ + token + "/shuffle/"@ + decimal_digits(shuffle_id as nat) + "/"@
            + decimal_digits(input_id as nat) + "/"@ + decimal_digits(output_id as nat),
{
    reveal_strlit("/shuffle");
    reveal_strlit("/shuffle/");
    reveal_strlit("/");
}

/// The path of the shuffle directory below the working directory
/// `local_dir`.
pub fn shuffle_dir(local_dir: &str) -> (path: String)
    ensures
        path@ == shuffle_dir_path(local_dir@),
{
    let mut path = String::from_str(local_dir);
    path.append("/shuffle");
    path
}

/// Knows where the shuffle output of this process lives on disk and under
/// which URI it is served. Neither changes once the manager is made.
#[derive(Debug)]
pub struct ShuffleManager {
    local_dir: String,
    shuffle_dir: String,
    server_uri: String,
}

impl ShuffleManager {
    /// The shuffle directory is `shuffle` below the working directory.
    #[verifier::type_invariant]
    spec fn well_formed(self) -> bool {
        self.shuffle_dir@ == shuffle_dir_path(self.local_dir@)
    }

    /// The working directory.
    pub closed spec fn local_dir_view(&self) -> Seq<char> {
        self.local_dir@
    }

    /// The URI of the server.
    pub closed spec fn server_uri_view(&self) -> Seq<char> {
        self.server_uri@
    }

    /// The manager of a process whose working directory is `local_dir` and
    /// whose server is reached under `server_uri`.
    pub fn new(local_dir: String, server_uri: String) -> (manager: Self)
        ensures
            manager.local_dir_view() == local_dir@,
            manager.server_uri_view() == server_uri@,
    {
        let shuffle_dir = shuffle_dir(local_dir.as_str());
        ShuffleManager { local_dir, shuffle_dir, server_uri }
    }

    /// The URI under which remote peers reach the server.
    pub fn get_server_uri(&self) -> (uri: String)
        ensures
            uri@ == self.server_uri_view(),
    {
        self.server_uri.clone()
    }

    /// The working directory.
    pub fn get_local_dir(&self) -> (path: String)
        ensures
            path@ == self.local_dir_view(),
    {
        self.local_dir.clone()
    }

    /// The directory below which all partition files are placed: `shuffle`
    /// below the working directory.
    pub fn get_shuffle_dir(&self) -> (path: String)
        ensures
            path@ == shuffle_dir_path(self.local_dir_view()),
    {
        proof {
            use_type_invariant(self);
        }
        self.shuffle_dir.clone()
    }

    /// The directory in which the output of input partition `input_id` of
    /// shuffle `shuffle_id` is kept. It has to exist before a partition
    /// file is written.
    pub fn get_output_dir(&self, shuffle_id: usize, input_id: usize) -> (path: String)
        ensures
            path@ == output_dir_path(self.local_dir_view(), shuffle_id, input_id),
    {
        let mut path = self.get_shuffle_dir();
        path.append("/");
        push_decimal(&mut path, shuffle_id as u64);
        path.append("/");
        push_decimal(&mut path, input_id as u64);
        path
    }

    /// The file in which output partition `output_id` of input partition
    /// `input_id` of shuffle `shuffle_id` is kept: the partition's number,
    /// in the directory that `get_output_dir` gives.
    pub fn get_output_file(&self, shuffle_id: usize, input_id: usize, output_id: usize) -> (path:
        String)
        ensures
            path@ == output_file_path(self.local_dir_view(), shuffle_id, input_id, output_id),
    {
        let mut path = self.get_output_dir(shuffle_id, input_id);
        path.append("/");
        push_decimal(&mut path, output_id as u64);
        path
    }
}

impl Clone for ShuffleManager {
    /// A manager of the same working area and the same server.
    fn clone(&self) -> (copy: Self)
        ensures
            copy.local_dir_view() == self.local_dir_view(),
            copy.server_uri_view() == self.server_uri_view(),
    {
        proof {
            use_type_invariant(self);
        }
        ShuffleManager {
            local_dir: self.local_dir.clone(),
            shuffle_dir: self.shuffle_dir.clone(),
            server_uri: self.server_uri.clone(),
        }
    }
}

} // verus!
