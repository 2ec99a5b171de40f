//! Commands that rgl runs: a program, its arguments, the directory it runs
//! in and the filter directory its environment is set up from.

use vstd::prelude::*;
use crate::path::{ComponentView, FsPath};

verus! {

/// One argument of a command (or the program itself): plain text or a path.
#[derive(Debug)]
pub enum Arg {
    Text(String),
    Path(FsPath),
}

pub enum ArgView {
    Text(Seq<char>),
    Path(Seq<ComponentView>),
}

impl View for Arg {
    type V = ArgView;

    open spec fn view(&self) -> ArgView {
        match self {
            Arg::Text(s) => ArgView::Text(s@),
            Arg::Path(p) => ArgView::Path(p@),
        }
    }
}

pub open spec fn args_view(v: Seq<Arg>) -> Seq<ArgView> {
    v.map_values(|a: Arg| a@)
}

/// Texts as arguments.
pub open spec fn texts(v: Seq<String>) -> Seq<ArgView> {
    v.map_values(|s: String| ArgView::Text(s@))
}

impl Arg {
    pub fn text(s: &str) -> (a: Arg)
        ensures
            a@ == ArgView::Text(s@),
    {
        Arg::Text(s.to_owned())
    }
}

/// A command to run.
#[derive(Debug)]
pub struct Subprocess {
    pub program: Arg,
    pub args: Vec<Arg>,
    pub current_dir: Option<FsPath>,
    /// The filter directory that the command's environment is set up from.
    pub env_dir: Option<FsPath>,
}

/// How a command runs: with its output passed through, or with each line
/// prefixed by the filter's name.
#[derive(Debug)]
pub struct Run {
    pub process: Subprocess,
    pub log_prefix: Option<String>,
}

impl Subprocess {
    /// A command that runs `program` with no arguments.
    pub fn new(program: Arg) -> (s: Subprocess)
        ensures
            s.program@ == program@,
            args_view(s.args@) == Seq::<ArgView>::empty(),
            s.current_dir is None,
            s.env_dir is None,
    {
        let s = Subprocess { program, args: Vec::new(), current_dir: None, env_dir: None };
        assert(args_view(s.args@) =~= Seq::<ArgView>::empty());
        s
    }

    /// Adds one argument.
    pub fn arg(&mut self, a: Arg)
        ensures
            args_view(final(self).args@) == args_view(old(self).args@).push(a@),
            final(self).program == old(self).program,
            final(self).current_dir == old(self).current_dir,
            final(self).env_dir == old(self).env_dir,
    {
        let ghost before = self.args@;
        self.args.push(a);
        assert(args_view(self.args@) =~= args_view(before).push(a@));
    }

    /// Adds text arguments, in order.
    pub fn text_args(&mut self, v: &Vec<String>)
        ensures
            args_view(final(self).args@) == args_view(old(self).args@) + texts(v@),
            final(self).program == old(self).program,
            final(self).current_dir == old(self).current_dir,
            final(self).env_dir == old(self).env_dir,
    {
        let n = v.len();
        let mut i: usize = 0;
        while i < n
            invariant
                n == v@.len(),
                i <= n,
                args_view(self.args@) == args_view(old(self).args@) + texts(v@.subrange(0, i as int)),
                self.program == old(self).program,
                self.current_dir == old(self).current_dir,
                self.env_dir == old(self).env_dir,
            decreases n - i,
        {
            let ghost before = self.args@;
            self.args.push(Arg::Text(v[i].clone()));
            assert(args_view(self.args@) =~= args_view(before).push(ArgView::Text(v@[i as int]@)));
            assert(texts(v@.subrange(0, i + 1)) =~= texts(v@.subrange(0, i as int)).push(ArgView::Text(v@[i as int]@)));
            i = i + 1;
        }
        assert(v@.subrange(0, n as int) =~= v@);
    }

    /// Sets the directory the command runs in.
    pub fn set_current_dir(&mut self, dir: FsPath)
        ensures
            final(self).current_dir == Some(dir),
            final(self).program == old(self).program,
            final(self).args == old(self).args,
            final(self).env_dir == old(self).env_dir,
    {
        self.current_dir = Some(dir);
    }

    /// Sets the filter directory the command's environment is set up from.
    pub fn setup_env(&mut self, filter_dir: FsPath)
        ensures
            final(self).env_dir == Some(filter_dir),
            final(self).program == old(self).program,
            final(self).args == old(self).args,
            final(self).current_dir == old(self).current_dir,
    {
        self.env_dir = Some(filter_dir);
    }
}

} // verus!
