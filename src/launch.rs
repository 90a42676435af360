//! How the messaging host starts the foreground application: the ways to
//! try on each operating system, in order.
use crate::settings::Platform;
use crate::types::{join_path, joined_path};
use vstd::prelude::*;

verus! {

/// One way to start the application: a program and its arguments; when
/// `must_exist` holds, it is tried only if the program file exists.
#[derive(Clone, Debug)]
pub struct LaunchAttempt {
    pub program: String,
    pub args: Vec<String>,
    pub must_exist: bool,
}

impl LaunchAttempt {
    pub open spec fn view(&self) -> (Seq<char>, Seq<Seq<char>>, bool) {
        (self.program@, self.args@.map_values(|a: String| a@), self.must_exist)
    }
}

/// The application's executable under a Windows base directory, directly
/// or under `Programs`.
pub open spec fn win_exe(base: Seq<char>, programs: bool) -> Seq<char> {
    let w = Platform::Windows;
    let dir = if programs {
        joined_path(base, "Programs"@, w)
    } else {
        base
    };
    joined_path(joined_path(dir, "Sigma Eclipse LLM"@, w), "sigma-eclipse.exe"@, w)
}

/// The install locations probed under one Windows base directory.
pub open spec fn win_candidates(base: Option<Seq<char>>) -> Seq<(Seq<char>, Seq<Seq<char>>, bool)> {
    match base {
        Some(b) => seq![(win_exe(b, false), Seq::empty(), true), (win_exe(b, true), Seq::empty(), true)],
        None => Seq::empty(),
    }
}

/// The attempts for an operating system (named as Rust names it), given
/// the user's local data directory and home directory where known; `None`
/// for an operating system without a way.
///
/// macOS opens the bundle by identifier, then by name; Windows runs the
/// executable from the installer's locations under the local data
/// directory and under the home directory's `AppData\Local`; Linux runs the
/// command from the search path, then from `/usr/bin` and `/usr/local/bin`.
pub open spec fn launch_plan_spec(
    os: Seq<char>,
    local_data_dir: Option<Seq<char>>,
    home_dir: Option<Seq<char>>,
) -> Option<Seq<(Seq<char>, Seq<Seq<char>>, bool)>> {
    if os == "macos"@ {
        Some(
            seq![
                ("open"@, seq!["-b"@, "com.sigma-eclipse.llm"@], false),
                ("open"@, seq!["-a"@, "Sigma Eclipse LLM"@], false),
            ],
        )
    } else if os == "windows"@ {
        let w = Platform::Windows;
        let home_local = match home_dir {
            Some(h) => Some(joined_path(joined_path(h, "AppData"@, w), "Local"@, w)),
            None => None,
        };
        Some(win_candidates(local_data_dir) + win_candidates(home_local))
    } else if os == "linux"@ {
        Some(
            seq![
                ("sigma-eclipse-llm"@, Seq::empty(), false),
                ("/usr/bin/sigma-eclipse-llm"@, Seq::empty(), false),
                ("/usr/local/bin/sigma-eclipse-llm"@, Seq::empty(), false),
            ],
        )
    } else {
        None
    }
}

pub open spec fn attempts_view(v: Seq<LaunchAttempt>) -> Seq<(Seq<char>, Seq<Seq<char>>, bool)> {
    v.map_values(|a: LaunchAttempt| a.view())
}

fn attempt(program: String, args: Vec<String>, must_exist: bool) -> (r: LaunchAttempt)
    ensures
        r.program == program,
        r.args == args,
        r.must_exist == must_exist,
{
    LaunchAttempt { program, args, must_exist }
}

fn push_windows_candidates(plan: &mut Vec<LaunchAttempt>, base: &str)
    ensures
        attempts_view(final(plan)@) == attempts_view(old(plan)@) + win_candidates(Some(base@)),
{
    let w = Platform::Windows;
    let direct = join_path(join_path(base, "Sigma Eclipse LLM", w).as_str(), "sigma-eclipse.exe", w);
    let programs = join_path(base, "Programs", w);
    let nested = join_path(
        join_path(programs.as_str(), "Sigma Eclipse LLM", w).as_str(),
        "sigma-eclipse.exe",
        w,
    );
    let ghost before = plan@;
    plan.push(attempt(direct, no_args(), true));
    plan.push(attempt(nested, no_args(), true));
    assert(attempts_view(plan@) =~= attempts_view(before) + win_candidates(Some(base@)));
}

fn no_args() -> (r: Vec<String>)
    ensures
        r@.map_values(|s: String| s@) == Seq::<Seq<char>>::empty(),
{
    let v: Vec<String> = Vec::new();
    assert(v@.map_values(|s: String| s@) =~= Seq::<Seq<char>>::empty());
    v
}

fn strings2(a: &str, b: &str) -> (r: Vec<String>)
    ensures
        r@.map_values(|s: String| s@) == seq![a@, b@],
{
    let mut v: Vec<String> = Vec::new();
    v.push(String::from_str(a));
    v.push(String::from_str(b));
    assert(v@.map_values(|s: String| s@) =~= seq![a@, b@]);
    v
}

/// The ways to start the application on `os`, in the order they are tried.
pub fn launch_plan(os: &str, local_data_dir: Option<&str>, home_dir: Option<&str>) -> (r: Option<
    Vec<LaunchAttempt>,
>)
    ensures
        match r {
            Some(v) => launch_plan_spec(
                os@,
                match local_data_dir {
                    Some(d) => Some(d@),
                    None => None,
                },
                match home_dir {
                    Some(h) => Some(h@),
                    None => None,
                },
            ) == Some(attempts_view(v@)),
            None => launch_plan_spec(
                os@,
                match local_data_dir {
                    Some(d) => Some(d@),
                    None => None,
                },
                match home_dir {
                    Some(h) => Some(h@),
                    None => None,
                },
            ) is None,
        },
{
    let mut plan: Vec<LaunchAttempt> = Vec::new();
    if crate::text::same_text(os, "macos") {
        plan.push(attempt(String::from_str("open"), strings2("-b", "com.sigma-eclipse.llm"), false));
        plan.push(attempt(String::from_str("open"), strings2("-a", "Sigma Eclipse LLM"), false));
        assert(attempts_view(plan@) =~= seq![
            ("open"@, seq!["-b"@, "com.sigma-eclipse.llm"@], false),
            ("open"@, seq!["-a"@, "Sigma Eclipse LLM"@], false),
        ]);
        Some(plan)
    } else if crate::text::same_text(os, "windows") {
        let w = Platform::Windows;
        if let Some(d) = local_data_dir {
            push_windows_candidates(&mut plan, d);
        }
        let ghost mid = plan@;
        if let Some(h) = home_dir {
            let base = join_path(join_path(h, "AppData", w).as_str(), "Local", w);
            push_windows_candidates(&mut plan, base.as_str());
        }
        assert(attempts_view(plan@) =~= win_candidates(
            match local_data_dir {
                Some(d) => Some(d@),
                None => None,
            },
        ) + win_candidates(
            match home_dir {
                Some(h) => Some(joined_path(joined_path(h@, "AppData"@, w), "Local"@, w)),
                None => None,
            },
        ));
        Some(plan)
    } else if crate::text::same_text(os, "linux") {
        plan.push(attempt(String::from_str("sigma-eclipse-llm"), no_args(), false));
        plan.push(attempt(String::from_str("/usr/bin/sigma-eclipse-llm"), no_args(), false));
        plan.push(attempt(String::from_str("/usr/local/bin/sigma-eclipse-llm"), no_args(), false));
        assert(attempts_view(plan@) =~= seq![
            ("sigma-eclipse-llm"@, Seq::<Seq<char>>::empty(), false),
            ("/usr/bin/sigma-eclipse-llm"@, Seq::<Seq<char>>::empty(), false),
            ("/usr/local/bin/sigma-eclipse-llm"@, Seq::<Seq<char>>::empty(), false),
        ]);
        Some(plan)
    } else {
        None
    }
}

} // verus!
