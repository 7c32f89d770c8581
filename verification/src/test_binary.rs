//! How a test binary's invocation is classified before its tests run.
use vstd::prelude::*;

use crate::digest::file_name;
use crate::text::chars_of;
use crate::text::eq_str;
use crate::text::string_of;

verus! {

/// The executable name and first argument of a test binary's invocation.
#[derive(Clone, Debug, PartialEq, Eq)]
pub struct TestBinaryInvocation {
    exe_name: String,
    argv1: Option<String>,
}

pub struct InvocationView {
    pub exe_name: Seq<char>,
    pub argv1: Option<Seq<char>>,
}

impl View for TestBinaryInvocation {
    type V = InvocationView;

    closed spec fn view(&self) -> InvocationView {
        InvocationView {
            exe_name: self.exe_name@,
            argv1: match self.argv1 {
                Some(a) => Some(a@),
                None => None,
            },
        }
    }
}

impl TestBinaryInvocation {
    pub fn new(exe_name: String) -> (r: Self)
        ensures
            r@.exe_name == exe_name@,
            r@.argv1 is None,
    {
        TestBinaryInvocation { exe_name, argv1: None }
    }

    /// The invocation of a program started as `argv0` with first argument
    /// `argv1`: its executable name is the file name of `argv0`, or empty.
    pub fn from_args(argv0: &str, argv1: Option<String>) -> (r: Self)
        ensures
            r@.exe_name == match file_name(argv0@) {
                Some(n) => n,
                None => Seq::<char>::empty(),
            },
            r@.argv1 == match argv1 {
                Some(a) => Some(a@),
                None => None,
            },
    {
        let exe_name = match crate::digest::file_name_of(&chars_of(argv0)) {
            Some(n) => string_of(&n),
            None => string_of(&Vec::new()),
        };
        TestBinaryInvocation { exe_name, argv1 }
    }

    pub fn with_argv1(self, argv1: String) -> (r: Self)
        ensures
            r@.exe_name == self@.exe_name,
            r@.argv1 == Some(argv1@),
    {
        TestBinaryInvocation { exe_name: self.exe_name, argv1: Some(argv1) }
    }

    pub fn exe_name(&self) -> (r: &str)
        ensures
            r@ == self@.exe_name,
    {
        self.exe_name.as_str()
    }

    pub fn argv1(&self) -> (r: Option<&str>)
        ensures
            match r {
                Some(a) => self@.argv1 == Some(a@),
                None => self@.argv1 is None,
            },
    {
        match &self.argv1 {
            Some(a) => Some(a.as_str()),
            None => None,
        }
    }
}

/// How a test binary invocation is handled before its tests run.
#[derive(Clone, Copy, PartialEq, Eq, Structural, Debug)]
pub enum TestBinaryDispatchMode {
    DispatchArg0Only,
    Skip,
    InstallAliases,
}

/// Classifies an invocation by its shape alone.
pub trait TestBinaryDispatchClassifier {
    fn classify(&self, invocation: &TestBinaryInvocation) -> TestBinaryDispatchMode;
}

/// The first arguments and executable names that dispatch to the arg0 tools.
#[derive(Clone, Copy, Debug)]
pub struct TestBinaryDispatchSpec<'a> {
    arg1_dispatches: &'a [&'a str],
    exe_name_dispatches: &'a [&'a str],
}

pub open spec fn names_view(v: Seq<&str>) -> Seq<Seq<char>> {
    v.map_values(|s: &str| s@)
}

fn contains_name(names: &[&str], s: &str) -> (r: bool)
    ensures
        r == names_view(names@).contains(s@),
{
    let sc = chars_of(s);
    let ghost nv = names_view(names@);
    for i in 0..names.len()
        invariant
            sc@ == s@,
            nv == names_view(names@),
            forall|j: int| 0 <= j < i ==> nv[j] != s@,
    {
        assert(nv[i as int] == names@[i as int]@);
        if eq_str(&sc, names[i]) {
            return true;
        }
    }
    false
}

impl<'a> TestBinaryDispatchSpec<'a> {
    pub fn new(arg1_dispatches: &'a [&'a str], exe_name_dispatches: &'a [&'a str]) -> (r: Self)
        ensures
            r.arg1_names() == names_view(arg1_dispatches@),
            r.exe_names() == names_view(exe_name_dispatches@),
    {
        TestBinaryDispatchSpec { arg1_dispatches, exe_name_dispatches }
    }

    pub closed spec fn arg1_names(&self) -> Seq<Seq<char>> {
        names_view(self.arg1_dispatches@)
    }

    pub closed spec fn exe_names(&self) -> Seq<Seq<char>> {
        names_view(self.exe_name_dispatches@)
    }

    /// The invocation goes to the arg0 tools: its first argument or its
    /// executable name is one that dispatches.
    pub open spec fn spec_dispatches(&self, invocation: InvocationView) -> bool {
        (match invocation.argv1 {
            Some(a) => self.arg1_names().contains(a),
            None => false,
        }) || self.exe_names().contains(invocation.exe_name)
    }

    pub fn dispatches_arg0(&self, invocation: &TestBinaryInvocation) -> (r: bool)
        ensures
            r == self.spec_dispatches(invocation@),
    {
        match invocation.argv1() {
            Some(a) => {
                if contains_name(self.arg1_dispatches, a) {
                    return true;
                }
            },
            None => {},
        }
        contains_name(self.exe_name_dispatches, invocation.exe_name())
    }
}

impl<'a> TestBinaryDispatchClassifier for TestBinaryDispatchSpec<'a> {
    /// Dispatch only for invocations that the spec names; install the
    /// aliases for all others.
    fn classify(&self, invocation: &TestBinaryInvocation) -> (r: TestBinaryDispatchMode)
        ensures
            r == if self.spec_dispatches(invocation@) {
                TestBinaryDispatchMode::DispatchArg0Only
            } else {
                TestBinaryDispatchMode::InstallAliases
            },
    {
        if self.dispatches_arg0(invocation) {
            TestBinaryDispatchMode::DispatchArg0Only
        } else {
            TestBinaryDispatchMode::InstallAliases
        }
    }
}

} // verus!
