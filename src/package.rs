use vstd::prelude::*;
use crate::registry::{dispatch_ok, dispatch_rows, AgentRegistry, MapleAgent};
use crate::ual::{parse_ual, spec_parse, texts, too_few_parts_msg};

verus! {

/// A named workflow: UAL lines run in order.
#[derive(Debug, Clone)]
pub struct MaplePackage {
    pub name: String,
    pub description: String,
    pub workflow: Vec<String>,
}

/// The packages a node knows, in the order they were added.
pub struct PackageManager {
    packages: Vec<MaplePackage>,
}

impl View for PackageManager {
    type V = Seq<MaplePackage>;

    closed spec fn view(&self) -> Seq<MaplePackage> {
        self.packages@
    }
}

/// `i` is the first position in `ps` of a package named `name`.
pub open spec fn first_named(ps: Seq<MaplePackage>, name: Seq<char>, i: int) -> bool {
    &&& 0 <= i < ps.len()
    &&& ps[i].name@ == name
    &&& forall|j: int| 0 <= j < i ==> ps[j].name@ != name
}

impl PackageManager {
    /// A manager with no packages.
    pub fn new() -> (r: Self)
        ensures
            r@ == Seq::<MaplePackage>::empty(),
    {
        PackageManager { packages: Vec::new() }
    }

    /// The first package named `name`, if any.
    pub fn get(&self, name: &str) -> (r: Option<&MaplePackage>)
        ensures
            r is None <==> forall|i: int| 0 <= i < self@.len() ==> self@[i].name@ != name@,
            r matches Some(p) ==> exists|i: int| first_named(self@, name@, i) && self@[i] == *p,
    {
        let wanted = name.to_owned();
        let mut i: usize = 0;
        while i < self.packages.len()
            invariant
                wanted@ == name@,
                i <= self.packages@.len(),
                forall|j: int| 0 <= j < i ==> self.packages@[j].name@ != name@,
            decreases self.packages@.len() - i,
        {
            if self.packages[i].name == wanted {
                assert(first_named(self@, name@, i as int));
                return Some(&self.packages[i]);
            }
            i = i + 1;
        }
        None
    }

    /// Adds a package after the others.
    pub fn add_package(&mut self, package: MaplePackage)
        ensures
            final(self)@ == old(self)@.push(package),
    {
        self.packages.push(package);
    }
}

/// Whether running `line` over the agents `reg` succeeds.
pub open spec fn line_ok<A: MapleAgent>(reg: Map<Seq<char>, A>, line: Seq<char>) -> bool {
    match spec_parse(line) {
        Some(st) => dispatch_ok(reg, st),
        None => false,
    }
}

/// The rows that running `line` over the agents `reg` writes.
pub open spec fn line_rows<A: MapleAgent>(reg: Map<Seq<char>, A>, line: Seq<char>) -> Seq<
    Seq<char>,
> {
    match spec_parse(line) {
        Some(st) => dispatch_rows(reg, st),
        None => Seq::empty(),
    }
}

/// The rows that running `lines` in order writes; a failing line writes none.
pub open spec fn workflow_rows<A: MapleAgent>(reg: Map<Seq<char>, A>, lines: Seq<Seq<char>>) -> Seq<
    Seq<char>,
>
    decreases lines.len(),
{
    if lines.len() == 0 {
        Seq::empty()
    } else {
        workflow_rows(reg, lines.drop_last()) + line_rows(reg, lines.last())
    }
}

/// The message reported for a line that fails before it reaches an agent:
/// it does not parse, or no agent is registered under its destination.
pub open spec fn line_error<A: MapleAgent>(reg: Map<Seq<char>, A>, line: Seq<char>) -> Option<
    Seq<char>,
> {
    match spec_parse(line) {
        None => Some(too_few_parts_msg()),
        Some(st) => if !reg.contains_key(st.destination) {
            Some("Agent '"@ + st.destination + "' not found"@)
        } else {
            None
        },
    }
}

/// Runs the lines of `package` in order over the agents of `registry`. A line
/// that fails is reported in its place in the result and the run goes on with
/// the next one; nothing is rolled back.
pub fn execute_package<A: MapleAgent>(
    registry: &AgentRegistry<A>,
    package: &MaplePackage,
    log: &mut Vec<String>,
) -> (r: Vec<Result<(), String>>)
    ensures
        r@.len() == package.workflow@.len(),
        forall|k: int|
            0 <= k < r@.len() ==> ((#[trigger] r@[k]) is Ok == line_ok(
                registry@,
                package.workflow@[k]@,
            )),
        forall|k: int|
            0 <= k < r@.len() && line_error(registry@, package.workflow@[k]@) is Some ==> ((
            #[trigger] r@[k]) matches Err(m) && m@ == line_error(
                registry@,
                package.workflow@[k]@,
            )->Some_0),
        texts(final(log)@) == texts(old(log)@) + workflow_rows(
            registry@,
            texts(package.workflow@),
        ),
{
    let lines = &package.workflow;
    let ghost start = texts(log@);
    let mut out: Vec<Result<(), String>> = Vec::new();
    let mut i: usize = 0;
    while i < lines.len()
        invariant
            i <= lines@.len(),
            out@.len() == i,
            forall|k: int|
                0 <= k < i ==> ((#[trigger] out@[k]) is Ok == line_ok(registry@, lines@[k]@)),
            forall|k: int|
                0 <= k < i && line_error(registry@, lines@[k]@) is Some ==> ((#[trigger] out@[k])
                    matches Err(m) && m@ == line_error(registry@, lines@[k]@)->Some_0),
            texts(log@) == start + workflow_rows(
                registry@,
                texts(lines@).take(i as int),
            ),
        decreases lines@.len() - i,
    {
        let ghost lv = texts(lines@);
        proof {
            assert(lv.take(i + 1).drop_last() =~= lv.take(i as int));
            assert(lv.take(i + 1).last() == lines@[i as int]@);
        }
        let outcome = match parse_ual(lines[i].as_str()) {
            Err(e) => {
                assert(line_rows(registry@, lines@[i as int]@) =~= Seq::<Seq<char>>::empty());
                Err(e)
            },
            Ok(stmt) => match registry.execute(&stmt, log) {
                Ok(()) => Ok(()),
                Err(e) => {
                    assert(dispatch_rows(registry@, stmt@) =~= Seq::<Seq<char>>::empty());
                    Err(e.message())
                },
            },
        };
        out.push(outcome);
        i = i + 1;
        proof {
            assert(texts(log@) =~= start + workflow_rows(registry@, lv.take(i as int)));
        }
    }
    assert(texts(lines@).take(i as int) =~= texts(lines@));
    out
}

/// Running a workflow whose line `k` does not parse writes exactly what
/// running it without that line writes: every other line still runs.
pub proof fn lemma_malformed_line_skipped<A: MapleAgent>(
    reg: Map<Seq<char>, A>,
    lines: Seq<Seq<char>>,
    k: int,
)
    requires
        0 <= k < lines.len(),
        spec_parse(lines[k]) is None,
    ensures
        workflow_rows(reg, lines) == workflow_rows(reg, lines.remove(k)),
        !line_ok(reg, lines[k]),
    decreases lines.len(),
{
    if k == lines.len() - 1 {
        assert(lines.remove(k) =~= lines.drop_last());
        assert(workflow_rows(reg, lines) =~= workflow_rows(reg, lines.drop_last()));
    } else {
        lemma_malformed_line_skipped(reg, lines.drop_last(), k);
        assert(lines.remove(k).drop_last() =~= lines.drop_last().remove(k));
        assert(lines.remove(k).last() == lines.last());
    }
}

/// The workflow a node starts with.
pub fn default_software_factory() -> (r: MaplePackage)
    ensures
        r.name@ == "software_factory"@,
        r.description@ == "Software Factory workflow for MAPLE"@,
        texts(r.workflow@) == seq![
            "EXEC define_product product_manager"@,
            "EXEC requirements architect WITH details=auth,tasks,realtime"@,
            "EXEC plan project_manager WITH arch=rest,react,postgres,websocket"@,
            "EXEC setup_infra system_engineer"@,
            "EXEC develop_app app_developer WITH features=auth,tasks,realtime"@,
            "EXEC test_app qa_engineer"@,
            "EXEC release system_engineer WITH marketing=enabled"@,
        ],
{
    let mut workflow: Vec<String> = Vec::new();
    workflow.push("EXEC define_product product_manager".to_owned());
    workflow.push("EXEC requirements architect WITH details=auth,tasks,realtime".to_owned());
    workflow.push("EXEC plan project_manager WITH arch=rest,react,postgres,websocket".to_owned());
    workflow.push("EXEC setup_infra system_engineer".to_owned());
    workflow.push("EXEC develop_app app_developer WITH features=auth,tasks,realtime".to_owned());
    workflow.push("EXEC test_app qa_engineer".to_owned());
    workflow.push("EXEC release system_engineer WITH marketing=enabled".to_owned());
    let r = MaplePackage {
        name: "software_factory".to_owned(),
        description: "Software Factory workflow for MAPLE".to_owned(),
        workflow,
    };
    assert(texts(r.workflow@) =~= seq![
        "EXEC define_product product_manager"@,
        "EXEC requirements architect WITH details=auth,tasks,realtime"@,
        "EXEC plan project_manager WITH arch=rest,react,postgres,websocket"@,
        "EXEC setup_infra system_engineer"@,
        "EXEC develop_app app_developer WITH features=auth,tasks,realtime"@,
        "EXEC test_app qa_engineer"@,
        "EXEC release system_engineer WITH marketing=enabled"@,
    ]);
    r
}

} // verus!
