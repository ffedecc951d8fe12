//! How the command line is called in tests.

use vstd::prelude::*;
use crate::table::Table;
use crate::test_utils::{seconds, DEFAULT_TIMEOUT_SECS};
use crate::text::{decimal, text_views, u64_to_string};

verus! {

/// A call of the command line in the making.
#[derive(Clone, Debug)]
pub struct MalaiCommand {
    binary_path: String,
    malai_home: Option<String>,
    env_vars: Table<String>,
    timeout: std::time::Duration,
}

impl MalaiCommand {
    pub closed spec fn binary(&self) -> Seq<char> {
        self.binary_path@
    }

    pub closed spec fn home(&self) -> Option<String> {
        self.malai_home
    }

    /// The environment variables that the call sets.
    pub closed spec fn env_vars(&self) -> Map<Seq<char>, String> {
        self.env_vars@
    }

    pub closed spec fn spec_timeout(&self) -> std::time::Duration {
        self.timeout
    }

    pub closed spec fn wf(&self) -> bool {
        self.env_vars.wf()
    }

    /// A call of the binary without a home, without variables, and with the
    /// default timeout.
    pub fn new(binary_path: String) -> (command: Self)
        ensures
            command.wf(),
            command.binary() == binary_path@,
            command.home().is_none(),
            command.env_vars() == Map::<Seq<char>, String>::empty(),
    {
        MalaiCommand {
            binary_path,
            malai_home: None,
            env_vars: Table::new(),
            timeout: seconds(DEFAULT_TIMEOUT_SECS),
        }
    }

    /// Sets the directory that the call uses as `MALAI_HOME`.
    pub fn malai_home(self, path: &str) -> (command: Self)
        ensures
            command.home() matches Some(home) && home@ == path@,
            command.binary() == self.binary(),
            command.env_vars() == self.env_vars(),
            command.spec_timeout() == self.spec_timeout(),
            command.wf() == self.wf(),
    {
        let mut command = self;
        command.malai_home = Some(path.to_owned());
        command
    }

    /// Sets an environment variable for the call. A variable that is set
    /// twice has the later value.
    pub fn env(self, key: &str, value: &str) -> (command: Self)
        requires
            self.wf(),
        ensures
            command.wf(),
            command.env_vars().dom() == self.env_vars().dom().insert(key@),
            command.env_vars()[key@]@ == value@,
            forall|other: Seq<char>|
                other != key@ && self.env_vars().contains_key(other)
                    ==> #[trigger] command.env_vars()[other] == self.env_vars()[other],
            command.binary() == self.binary(),
            command.home() == self.home(),
            command.spec_timeout() == self.spec_timeout(),
    {
        let mut command = self;
        let ghost before = command.env_vars@;
        let text = value.to_owned();
        command.env_vars.insert(key.to_owned(), text);
        assert(command.env_vars@.dom() =~= before.dom().insert(key@));
        command
    }

    /// Sets how long the call may take.
    pub fn timeout(self, timeout: std::time::Duration) -> (command: Self)
        ensures
            command.spec_timeout() == timeout,
            command.binary() == self.binary(),
            command.home() == self.home(),
            command.env_vars() == self.env_vars(),
            command.wf() == self.wf(),
    {
        let mut command = self;
        command.timeout = timeout;
        command
    }

    pub fn get_binary_path(&self) -> (path: &String)
        ensures
            path@ == self.binary(),
    {
        &self.binary_path
    }

    pub fn get_malai_home(&self) -> (home: &Option<String>)
        ensures
            *home == self.home(),
    {
        &self.malai_home
    }

    pub fn get_timeout(&self) -> (timeout: std::time::Duration)
        ensures
            timeout == self.spec_timeout(),
    {
        self.timeout
    }

    /// The value of an environment variable of the call, where it sets one.
    pub fn get_env(&self, key: &str) -> (value: Option<&String>)
        requires
            self.wf(),
        ensures
            match value {
                Some(text) => self.env_vars().contains_key(key@) && *text == self.env_vars()[key@],
                None => !self.env_vars().contains_key(key@),
            },
    {
        self.env_vars.get(key)
    }

    /// The arguments that create a cluster, with an alias where one is
    /// given.
    pub fn ssh_create_cluster(alias: Option<&str>) -> (args: Vec<String>)
        ensures
            text_views(args@) == (match alias {
                Some(name) => seq!["ssh"@, "create-cluster"@, "--alias"@, name@],
                None => seq!["ssh"@, "create-cluster"@],
            }),
    {
        let mut args: Vec<String> = Vec::new();
        args.push("ssh".to_owned());
        args.push("create-cluster".to_owned());
        match alias {
            Some(name) => {
                args.push("--alias".to_owned());
                args.push(name.to_owned());
                assert(text_views(args@) =~= seq![
                    "ssh"@,
                    "create-cluster"@,
                    "--alias"@,
                    name@,
                ]);
            },
            None => {
                assert(text_views(args@) =~= seq!["ssh"@, "create-cluster"@]);
            },
        }
        args
    }

    /// The arguments that run a command on a machine.
    pub fn ssh_exec(machine: &str, command: &str, args: &[String]) -> (all: Vec<String>)
        ensures
            text_views(all@) == seq!["ssh"@, "exec"@, machine@, command@] + text_views(args@),
    {
        let mut all: Vec<String> = Vec::new();
        all.push("ssh".to_owned());
        all.push("exec".to_owned());
        all.push(machine.to_owned());
        all.push(command.to_owned());
        let ghost head = seq!["ssh"@, "exec"@, machine@, command@];
        assert(text_views(all@) =~= head);
        let mut i: usize = 0;
        while i < args.len()
            invariant
                i <= args.len(),
                text_views(all@) == head + text_views(args@.take(i as int)),
            decreases args.len() - i,
        {
            let ghost before = all@;
            all.push(args[i].clone());
            assert(text_views(all@) =~= head + text_views(args@.take(i + 1))) by {
                assert(text_views(all@) =~= text_views(before).push(args@[i as int]@));
                assert(text_views(args@.take(i + 1)) =~= text_views(args@.take(i as int)).push(
                    args@[i as int]@,
                ));
            }
            i += 1;
        }
        assert(args@.take(args@.len() as int) =~= args@);
        all
    }

    /// The arguments that expose an HTTP service.
    pub fn http(port: u16, public: bool) -> (args: Vec<String>)
        ensures
            text_views(args@) == (if public {
                seq!["http"@, decimal(port as nat), "--public"@]
            } else {
                seq!["http"@, decimal(port as nat)]
            }),
    {
        let mut args: Vec<String> = Vec::new();
        args.push("http".to_owned());
        args.push(u64_to_string(port as u64));
        if public {
            args.push("--public".to_owned());
            assert(text_views(args@) =~= seq!["http"@, decimal(port as nat), "--public"@]);
        } else {
            assert(text_views(args@) =~= seq!["http"@, decimal(port as nat)]);
        }
        args
    }

    /// The arguments that expose a folder.
    pub fn folder(path: &str, public: bool) -> (args: Vec<String>)
        ensures
            text_views(args@) == (if public {
                seq!["folder"@, path@, "--public"@]
            } else {
                seq!["folder"@, path@]
            }),
    {
        let mut args: Vec<String> = Vec::new();
        args.push("folder".to_owned());
        args.push(path.to_owned());
        if public {
            args.push("--public".to_owned());
            assert(text_views(args@) =~= seq!["folder"@, path@, "--public"@]);
        } else {
            assert(text_views(args@) =~= seq!["folder"@, path@]);
        }
        args
    }
}

} // verus!
