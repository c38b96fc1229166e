use vstd::prelude::*;

use crate::text::chars_of;

verus! {

/// The commands of the bot's general group.
#[derive(Clone, Copy, Debug, PartialEq, Eq, Structural)]
pub enum Command {
    Ping,
    Join,
    Leave,
    Play,
    Skip,
    Stop,
    Playing,
    Queue,
    Addfav,
    Favs,
    Playfav,
    Randfav,
}

/// The name a command is called by.
pub open spec fn command_name(c: Command) -> Seq<char> {
    match c {
        Command::Ping => "ping"@,
        Command::Join => "join"@,
        Command::Leave => "leave"@,
        Command::Play => "play"@,
        Command::Skip => "skip"@,
        Command::Stop => "stop"@,
        Command::Playing => "playing"@,
        Command::Queue => "queue"@,
        Command::Addfav => "addfav"@,
        Command::Favs => "favs"@,
        Command::Playfav => "playfav"@,
        Command::Randfav => "randfav"@,
    }
}

/// The general group of commands; each of them answers in guilds only.
#[derive(Debug)]
pub struct General;

fn same_text(a: &Vec<char>, b: &str) -> (r: bool)
    ensures
        r == (a@ == b@),
{
    let bs = chars_of(b);
    if a.len() != bs.len() {
        return false;
    }
    let mut i: usize = 0;
    while i < a.len()
        invariant
            i <= a@.len() == bs@.len(),
            bs@ == b@,
            forall|j: int| 0 <= j < i ==> a@[j] == bs@[j],
        decreases a@.len() - i,
    {
        if a[i] != bs[i] {
            assert(a@[i as int] != b@[i as int]);
            return false;
        }
        i = i + 1;
    }
    assert(a@ =~= bs@);
    true
}

impl General {
    /// The commands of the group, in the order they are declared.
    pub fn commands() -> (cs: Vec<Command>)
        ensures
            cs@ == seq![
                Command::Ping,
                Command::Join,
                Command::Leave,
                Command::Play,
                Command::Skip,
                Command::Stop,
                Command::Playing,
                Command::Queue,
                Command::Addfav,
                Command::Favs,
                Command::Playfav,
                Command::Randfav,
            ],
    {
        let cs = vec![
            Command::Ping,
            Command::Join,
            Command::Leave,
            Command::Play,
            Command::Skip,
            Command::Stop,
            Command::Playing,
            Command::Queue,
            Command::Addfav,
            Command::Favs,
            Command::Playfav,
            Command::Randfav,
        ];
        assert(cs@ =~= seq![
            Command::Ping,
            Command::Join,
            Command::Leave,
            Command::Play,
            Command::Skip,
            Command::Stop,
            Command::Playing,
            Command::Queue,
            Command::Addfav,
            Command::Favs,
            Command::Playfav,
            Command::Randfav,
        ]);
        cs
    }

    /// The command of the group called `name`, if there is one.
    pub fn find(name: &str) -> (c: Option<Command>)
        ensures
            c matches Some(c) ==> command_name(c) == name@,
            c is None ==> forall|k: Command| command_name(k) != name@,
    {
        let n = chars_of(name);
        if same_text(&n, "ping") {
            Some(Command::Ping)
        } else if same_text(&n, "join") {
            Some(Command::Join)
        } else if same_text(&n, "leave") {
            Some(Command::Leave)
        } else if same_text(&n, "play") {
            Some(Command::Play)
        } else if same_text(&n, "skip") {
            Some(Command::Skip)
        } else if same_text(&n, "stop") {
            Some(Command::Stop)
        } else if same_text(&n, "playing") {
            Some(Command::Playing)
        } else if same_text(&n, "queue") {
            Some(Command::Queue)
        } else if same_text(&n, "addfav") {
            Some(Command::Addfav)
        } else if same_text(&n, "favs") {
            Some(Command::Favs)
        } else if same_text(&n, "playfav") {
            Some(Command::Playfav)
        } else if same_text(&n, "randfav") {
            Some(Command::Randfav)
        } else {
            assert forall|k: Command| command_name(k) != name@ by {
                match k {
                    Command::Ping => {},
                    Command::Join => {},
                    Command::Leave => {},
                    Command::Play => {},
                    Command::Skip => {},
                    Command::Stop => {},
                    Command::Playing => {},
                    Command::Queue => {},
                    Command::Addfav => {},
                    Command::Favs => {},
                    Command::Playfav => {},
                    Command::Randfav => {},
                }
            }
            None
        }
    }
}

/// `ping`: the answer is "pong!".
pub fn ping() -> (s: String)
    ensures
        s@ == "pong!"@,
{
    String::from_str("pong!")
}

} // verus!
