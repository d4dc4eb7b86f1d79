use vstd::prelude::*;

use crate::command::SimplexCommand;
use crate::model::SimplexEvent;
use crate::text::{chars_of, join, join_all};

verus! {

/// `name` placed inside the directory `root`, as a path join writes it: no separator is added
/// after an empty root or one that already ends with `/`.
pub open spec fn joined(root: Seq<char>, name: Seq<char>) -> Seq<char> {
    if root.len() == 0 {
        name
    } else if root.last() == '/' {
        root + name
    } else {
        root + "/"@ + name
    }
}

/// Places `name` inside the directory `root`.
pub fn join_path(root: &str, name: &str) -> (r: String)
    ensures
        r@ == joined(root@, name@),
{
    let chars = chars_of(root);
    if chars.len() == 0 {
        name.to_owned()
    } else if chars[chars.len() - 1] == '/' {
        join(root, name)
    } else {
        let pieces = [root, "/", name];
        let r = join_all(&pieces);
        proof {
            reveal_with_fuel(crate::text::concat_all, 4);
            assert(pieces@.map_values(|p: &str| p@) =~= seq![root@, "/"@, name@]);
        }
        r
    }
}

/// Where the SimpleX core keeps its data: one directory, and the prefix of its database files
/// inside it.
#[derive(Clone, Debug)]
pub struct SimplexPaths {
    pub root: String,
    pub database_prefix: String,
}

impl SimplexPaths {
    /// The data of a core that lives under `root`.
    pub fn at(root: &str) -> (r: SimplexPaths)
        ensures
            r.root@ == root@,
            r.database_prefix@ == joined(root@, "simplex"@),
    {
        SimplexPaths { root: root.to_owned(), database_prefix: join_path(root, "simplex") }
    }
}

/// The directories that an embedding application chooses for a client.
#[derive(Clone, Debug)]
pub struct Config {
    pub data_directory: String,
    pub download_directory: String,
}

impl Config {
    pub fn new(data_directory: &str, download_directory: &str) -> (r: Config)
        ensures
            r.data_directory@ == data_directory@,
            r.download_directory@ == download_directory@,
    {
        Config {
            data_directory: data_directory.to_owned(),
            download_directory: download_directory.to_owned(),
        }
    }
}

/// The sending end of a channel of the standard library.
#[verifier::external_type_specification]
#[verifier::external_body]
#[verifier::reject_recursive_types(T)]
pub struct ExSender<T>(std::sync::mpsc::Sender<T>);

/// The receiving end of a channel of the standard library.
#[verifier::external_type_specification]
#[verifier::external_body]
#[verifier::reject_recursive_types(T)]
pub struct ExReceiver<T>(std::sync::mpsc::Receiver<T>);

/// The two ends through which an interface talks to one running client: commands go in,
/// events come out.
pub struct Session {
    commands: std::sync::mpsc::Sender<SimplexCommand>,
    events: std::sync::mpsc::Receiver<SimplexEvent>,
}

impl Session {
    pub closed spec fn command_end(self) -> std::sync::mpsc::Sender<SimplexCommand> {
        self.commands
    }

    pub closed spec fn event_end(self) -> std::sync::mpsc::Receiver<SimplexEvent> {
        self.events
    }

    pub fn new(
        commands: std::sync::mpsc::Sender<SimplexCommand>,
        events: std::sync::mpsc::Receiver<SimplexEvent>,
    ) -> (r: Session)
        ensures
            r.command_end() == commands,
            r.event_end() == events,
    {
        Session { commands, events }
    }

    pub fn into_parts(self) -> (r: (
        std::sync::mpsc::Sender<SimplexCommand>,
        std::sync::mpsc::Receiver<SimplexEvent>,
    ))
        ensures
            r.0 == self.command_end(),
            r.1 == self.event_end(),
    {
        (self.commands, self.events)
    }
}

} // verus!
