use vstd::prelude::*;

verus! {

/// How a platform launches a named application on some paths.
#[derive(Clone, Copy, Debug, PartialEq, Eq)]
pub enum OpenPlatform {
    /// Through the `open -a <app>` helper.
    MacOs,
    /// By running the application's binary directly.
    Other,
}

/// A program to run and its arguments.
#[derive(Clone, Debug, PartialEq, Eq)]
pub struct OpenCommand {
    pub program: String,
    pub args: Vec<String>,
}

/// The editor used when none is set.
pub open spec fn default_editor() -> Seq<char> {
    "vi"@
}

/// The program that opens the created paths: the named application (through `open` on
/// macOS), else the editor from the environment, else the default editor.
pub open spec fn spec_open_program(
    platform: OpenPlatform,
    app: Option<Seq<char>>,
    editor: Option<Seq<char>>,
) -> Seq<char> {
    match app {
        Some(a) => match platform {
            OpenPlatform::MacOs => "open"@,
            OpenPlatform::Other => a,
        },
        None => match editor {
            Some(e) => e,
            None => default_editor(),
        },
    }
}

/// Its arguments: all created paths in order, after `-a <app>` where `open` launches an
/// application.
pub open spec fn spec_open_args(
    platform: OpenPlatform,
    app: Option<Seq<char>>,
    paths: Seq<Seq<char>>,
) -> Seq<Seq<char>> {
    match app {
        Some(a) => match platform {
            OpenPlatform::MacOs => seq!["-a"@, a] + paths,
            OpenPlatform::Other => paths,
        },
        None => paths,
    }
}

fn append_all(r: &mut Vec<String>, paths: &Vec<String>)
    ensures
        final(r).deep_view() == old(r).deep_view() + paths.deep_view(),
{
    let ghost start = r.deep_view();
    let mut i: usize = 0;
    while i < paths.len()
        invariant
            i <= paths@.len(),
            r.deep_view() == start + paths.deep_view().take(i as int),
        decreases paths@.len() - i,
    {
        let ghost before = r.deep_view();
        r.push(paths[i].clone());
        assert(r.deep_view() =~= before.push(paths@[i as int]@));
        assert(paths.deep_view().take(i as int + 1) =~= paths.deep_view().take(i as int).push(
            paths@[i as int]@,
        ));
        i = i + 1;
    }
    assert(paths.deep_view().take(i as int) =~= paths.deep_view());
}

/// The command that opens `paths` with `app`, or with `editor` where no application is named.
pub fn open_command(
    platform: OpenPlatform,
    app: &Option<String>,
    editor: &Option<String>,
    paths: &Vec<String>,
) -> (r: OpenCommand)
    ensures
        r.program@ == spec_open_program(platform, app.deep_view(), editor.deep_view()),
        r.args.deep_view() == spec_open_args(platform, app.deep_view(), paths.deep_view()),
{
    let mut args: Vec<String> = Vec::new();
    let program = match app {
        Some(a) => match platform {
            OpenPlatform::MacOs => {
                args.push(String::from_str("-a"));
                args.push(a.clone());
                String::from_str("open")
            },
            OpenPlatform::Other => a.clone(),
        },
        None => match editor {
            Some(e) => e.clone(),
            None => String::from_str("vi"),
        },
    };
    let ghost head = args.deep_view();
    append_all(&mut args, paths);
    proof {
        if app is Some && platform == OpenPlatform::MacOs {
            assert(head =~= seq!["-a"@, app.deep_view()->0]);
        } else {
            assert(head =~= Seq::<Seq<char>>::empty());
        }
    }
    OpenCommand { program, args }
}

} // verus!
