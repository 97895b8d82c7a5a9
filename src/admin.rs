use vstd::prelude::*;
use vstd::string::StringExecFns;
use crate::ual::{
    lemma_tokens_shape, ranges_of, statement_from, statement_of, texts, token_ranges, token_text, tokens,
    StatementView, UALStatement,
};

verus! {

/// Whether `c` is an ASCII decimal digit.
pub open spec fn is_digit(c: char) -> bool {
    0x30 <= (c as u32) <= 0x39
}

/// The number that a run of decimal digits spells.
pub open spec fn digits_value(s: Seq<char>) -> int
    decreases s.len(),
{
    if s.len() == 0 {
        0
    } else {
        digits_value(s.drop_last()) * 10 + ((s.last() as u32) - 0x30)
    }
}

/// A decimal integer with an optional `+` or `-` sign and nothing else,
/// if it fits in an `i64`.
pub open spec fn spec_parse_i64(s: Seq<char>) -> Option<i64> {
    let neg = s.len() > 0 && s[0] == '-';
    let ds = if s.len() > 0 && (s[0] == '-' || s[0] == '+') {
        s.drop_first()
    } else {
        s
    };
    let v = if neg {
        -digits_value(ds)
    } else {
        digits_value(ds)
    };
    if ds.len() == 0 || !(forall|i: int| 0 <= i < ds.len() ==> is_digit(ds[i])) {
        None
    } else if i64::MIN <= v <= i64::MAX {
        Some(v as i64)
    } else {
        None
    }
}

/// Relies on `str::parse::<i64>`, documented to accept an optional `+` or `-`
/// followed by decimal digits only, and to fail when the value does not fit.
#[verifier::external_body]
fn parse_i64(s: &str) -> (r: Option<i64>)
    ensures
        r == spec_parse_i64(s@),
{
    s.parse::<i64>().ok()
}

/// Words joined with single spaces.
pub open spec fn join_words(ws: Seq<Seq<char>>) -> Seq<char>
    decreases ws.len(),
{
    if ws.len() == 0 {
        Seq::empty()
    } else if ws.len() == 1 {
        ws[0]
    } else {
        join_words(ws.drop_last()) + " "@ + ws.last()
    }
}

/// A reply or the work that an admin command line asks for.
pub enum AdminSpec {
    Reply(Seq<char>),
    DefineAgent(Seq<char>, Seq<char>, Seq<char>),
    CreateProject(Seq<char>, Seq<char>),
    ListProjects,
    SwitchProject(i64),
    Import(Seq<char>),
    Export(Seq<char>, Seq<char>, Seq<Seq<char>>),
    Execute(StatementView),
}

pub open spec fn denied_msg() -> Seq<char> {
    "Permission denied: Admin only"@
}

pub open spec fn unknown_msg() -> Seq<char> {
    "Unknown command"@
}

/// What a command line asks for, from its tokens, for a caller who is or is
/// not an administrator. Defining agents and creating projects are for
/// administrators only; that is checked before the arguments.
pub open spec fn spec_admin(toks: Seq<Seq<char>>, is_admin: bool) -> AdminSpec {
    let cmd = if toks.len() > 0 {
        toks[0]
    } else {
        Seq::empty()
    };
    if cmd == "define_agent"@ {
        if !is_admin {
            AdminSpec::Reply(denied_msg())
        } else if toks.len() > 3 && toks[1] == "AGENT"@ {
            AdminSpec::DefineAgent(toks[2], toks[3], join_words(toks.skip(4)))
        } else {
            AdminSpec::Reply("Syntax: define_agent AGENT <id> <role> <description>"@)
        }
    } else if cmd == "create_project"@ {
        if !is_admin {
            AdminSpec::Reply(denied_msg())
        } else if toks.len() > 2 {
            AdminSpec::CreateProject(toks[1], join_words(toks.skip(2)))
        } else {
            AdminSpec::Reply("Error: Name and description required"@)
        }
    } else if cmd == "list_projects"@ {
        AdminSpec::ListProjects
    } else if cmd == "switch_project"@ {
        if toks.len() > 1 {
            match spec_parse_i64(toks[1]) {
                Some(id) => AdminSpec::SwitchProject(id),
                None => AdminSpec::Reply("Error: Invalid project ID"@),
            }
        } else {
            AdminSpec::Reply("Error: Project ID required"@)
        }
    } else if cmd == "import"@ {
        if toks.len() > 1 {
            AdminSpec::Import(toks[1])
        } else {
            AdminSpec::Reply("Error: Path required"@)
        }
    } else if cmd == "export"@ {
        if toks.len() > 3 {
            AdminSpec::Export(toks[1], toks[2], toks.skip(3))
        } else {
            AdminSpec::Reply("Error: Name, path and workflow required"@)
        }
    } else if cmd == "ual"@ {
        if toks.len() > 3 {
            AdminSpec::Execute(statement_of(toks.skip(1)))
        } else {
            AdminSpec::Reply("Error: Invalid UAL: Too few parts"@)
        }
    } else {
        AdminSpec::Reply(unknown_msg())
    }
}

/// A reply to send at once, or the work that an admin command line asks for.
pub enum AdminAction {
    Reply(String),
    DefineAgent { id: String, role: String, description: String },
    CreateProject { name: String, description: String },
    ListProjects,
    SwitchProject(i64),
    Import(String),
    Export { name: String, path: String, workflow: Vec<String> },
    Execute(UALStatement),
}

impl View for AdminAction {
    type V = AdminSpec;

    open spec fn view(&self) -> AdminSpec {
        match self {
            AdminAction::Reply(m) => AdminSpec::Reply(m@),
            AdminAction::DefineAgent { id, role, description } => AdminSpec::DefineAgent(
                id@,
                role@,
                description@,
            ),
            AdminAction::CreateProject { name, description } => AdminSpec::CreateProject(
                name@,
                description@,
            ),
            AdminAction::ListProjects => AdminSpec::ListProjects,
            AdminAction::SwitchProject(id) => AdminSpec::SwitchProject(*id),
            AdminAction::Import(p) => AdminSpec::Import(p@),
            AdminAction::Export { name, path, workflow } => AdminSpec::Export(
                name@,
                path@,
                texts(workflow@),
            ),
            AdminAction::Execute(s) => AdminSpec::Execute(s@),
        }
    }
}

/// The tokens of `input` from position `from` on, joined with single spaces.
fn join_from(input: &str, ranges: &Vec<(usize, usize)>, from: usize) -> (r: String)
    requires
        ranges_of(input@, ranges@, tokens(input@)),
        from <= ranges@.len(),
    ensures
        r@ == join_words(tokens(input@).skip(from as int)),
{
    let ghost toks = tokens(input@);
    let ghost rest = toks.skip(from as int);
    let n = ranges.len();
    let mut out = String::new();
    let mut j = from;
    while j < n
        invariant
            from <= j <= n,
            n == ranges@.len(),
            toks == tokens(input@),
            rest == toks.skip(from as int),
            ranges_of(input@, ranges@, toks),
            out@ == join_words(rest.take(j - from)),
        decreases n - j,
    {
        let w = token_text(input, ranges, j);
        proof {
            let pre = rest.take(j - from);
            assert(rest.take(j - from + 1).drop_last() =~= pre);
            assert(rest.take(j - from + 1).last() == toks[j as int]);
        }
        if j > from {
            out.append(" ");
        }
        out.append(w.as_str());
        j = j + 1;
        proof {
            if j - from == 1 {
                assert(out@ =~= join_words(rest.take(j - from)));
            }
        }
    }
    assert(rest.take(j - from) =~= rest);
    out
}

fn words_from(input: &str, ranges: &Vec<(usize, usize)>, from: usize) -> (r: Vec<String>)
    requires
        ranges_of(input@, ranges@, tokens(input@)),
        from <= ranges@.len(),
    ensures
        texts(r@) == tokens(input@).skip(from as int),
{
    let ghost toks = tokens(input@);
    let n = ranges.len();
    let mut out: Vec<String> = Vec::new();
    let mut j = from;
    while j < n
        invariant
            from <= j <= n,
            n == ranges@.len(),
            toks == tokens(input@),
            ranges_of(input@, ranges@, toks),
            texts(out@) == toks.skip(from as int).take(j - from),
        decreases n - j,
    {
        let w = token_text(input, ranges, j);
        let ghost before = out@;
        out.push(w);
        j = j + 1;
        assert(texts(out@) =~= texts(before).push(w@));
        assert(toks.skip(from as int).take(j - from) =~= toks.skip(from as int).take(j - from - 1).push(toks[j - 1]));
    }
    assert(toks.skip(from as int).take(j - from) =~= toks.skip(from as int));
    out
}

fn is_word(input: &str, ranges: &Vec<(usize, usize)>, k: usize, word: &str) -> (r: bool)
    requires
        ranges_of(input@, ranges@, tokens(input@)),
    ensures
        r == (k < ranges@.len() && tokens(input@)[k as int] == word@),
{
    if k < ranges.len() {
        token_text(input, ranges, k) == word.to_owned()
    } else {
        false
    }
}

/// Decides what an admin command line asks for, for a caller with `role`.
pub fn admin_action(line: &str, role: &str) -> (r: AdminAction)
    ensures
        r@ == spec_admin(tokens(line@), role@ == "admin"@),
        r matches AdminAction::Execute(s) ==> s@.well_formed(),
{
    proof {
        lemma_tokens_shape(line@);
    }
    let ranges = token_ranges(line);
    let ghost toks = tokens(line@);
    let n = ranges.len();
    let is_admin = role.to_owned() == "admin".to_owned();
    proof {
        if n == 0 {
            reveal_strlit("define_agent");
            reveal_strlit("create_project");
            reveal_strlit("list_projects");
            reveal_strlit("switch_project");
            reveal_strlit("import");
            reveal_strlit("export");
            reveal_strlit("ual");
            assert(Seq::<char>::empty() != "define_agent"@);
            assert(Seq::<char>::empty() != "create_project"@);
            assert(Seq::<char>::empty() != "list_projects"@);
            assert(Seq::<char>::empty() != "switch_project"@);
            assert(Seq::<char>::empty() != "import"@);
            assert(Seq::<char>::empty() != "export"@);
            assert(Seq::<char>::empty() != "ual"@);
        }
    }
    if is_word(line, &ranges, 0, "define_agent") {
        if !is_admin {
            AdminAction::Reply("Permission denied: Admin only".to_owned())
        } else if n > 3 && is_word(line, &ranges, 1, "AGENT") {
            AdminAction::DefineAgent {
                id: token_text(line, &ranges, 2),
                role: token_text(line, &ranges, 3),
                description: join_from(line, &ranges, 4),
            }
        } else {
            AdminAction::Reply("Syntax: define_agent AGENT <id> <role> <description>".to_owned())
        }
    } else if is_word(line, &ranges, 0, "create_project") {
        if !is_admin {
            AdminAction::Reply("Permission denied: Admin only".to_owned())
        } else if n > 2 {
            AdminAction::CreateProject {
                name: token_text(line, &ranges, 1),
                description: join_from(line, &ranges, 2),
            }
        } else {
            AdminAction::Reply("Error: Name and description required".to_owned())
        }
    } else if is_word(line, &ranges, 0, "list_projects") {
        AdminAction::ListProjects
    } else if is_word(line, &ranges, 0, "switch_project") {
        if n > 1 {
            let t = token_text(line, &ranges, 1);
            match parse_i64(t.as_str()) {
                Some(id) => AdminAction::SwitchProject(id),
                None => AdminAction::Reply("Error: Invalid project ID".to_owned()),
            }
        } else {
            AdminAction::Reply("Error: Project ID required".to_owned())
        }
    } else if is_word(line, &ranges, 0, "import") {
        if n > 1 {
            AdminAction::Import(token_text(line, &ranges, 1))
        } else {
            AdminAction::Reply("Error: Path required".to_owned())
        }
    } else if is_word(line, &ranges, 0, "export") {
        if n > 3 {
            AdminAction::Export {
                name: token_text(line, &ranges, 1),
                path: token_text(line, &ranges, 2),
                workflow: words_from(line, &ranges, 3),
            }
        } else {
            AdminAction::Reply("Error: Name, path and workflow required".to_owned())
        }
    } else if is_word(line, &ranges, 0, "ual") {
        if n > 3 {
            AdminAction::Execute(statement_from(line, &ranges, 1))
        } else {
            AdminAction::Reply("Error: Invalid UAL: Too few parts".to_owned())
        }
    } else {
        AdminAction::Reply("Unknown command".to_owned())
    }
}

} // verus!
