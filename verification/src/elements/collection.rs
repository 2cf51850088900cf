//! Collection of telemetry from a remote source.

use vstd::prelude::*;

use crate::graph::port::{Inlet, Links, Outlet};

verus! {

/// What `reqwest::Url::parse` makes of a text: the text of the URL in its normal
/// form and whether the URL names a host, or `None` where the text is no URL.
pub uninterp spec fn parsed_url(text: Seq<char>) -> Option<(Seq<char>, bool)>;

/// A URL, as far as the choice of a target goes.
#[derive(Debug)]
pub struct ParsedUrl {
    /// The URL in its normal form.
    pub text: String,
    /// Whether it names a host.
    pub has_host: bool,
}

impl View for ParsedUrl {
    type V = (Seq<char>, bool);

    open spec fn view(&self) -> (Seq<char>, bool) {
        (self.text@, self.has_host)
    }
}

/// What an attempt to parse a URL amounts to.
pub open spec fn url_view(url: Option<ParsedUrl>) -> Option<(Seq<char>, bool)> {
    match url {
        Some(u) => Some(u@),
        None => None,
    }
}

/// `reqwest::Url::parse`, with the text and `has_host` read off the URL that it
/// returns. The contract names this outcome, which depends on the given text
/// alone.
#[verifier::external_body]
fn parse_url(text: &str) -> (url: Option<ParsedUrl>)
    ensures
        url_view(url) == parsed_url(text@),
{
    match reqwest::Url::parse(text) {
        Ok(url) => Some(ParsedUrl { has_host: url.has_host(), text: String::from(url) }),
        Err(_) => None,
    }
}

/// Why a text is no target to collect from.
#[derive(Debug, PartialEq, Eq, Structural)]
pub enum TargetError {
    /// It is no URL.
    NotAUrl,
    /// It is a URL without a host.
    NoHost,
}

/// The target that a parsed text stands for: a URL that names a host.
pub open spec fn target_of(url: Option<(Seq<char>, bool)>) -> Result<Seq<char>, TargetError> {
    match url {
        Some((text, true)) => Ok(text),
        Some((text, false)) => Err(TargetError::NoHost),
        None => Err(TargetError::NotAUrl),
    }
}

/// What a choice of a target amounts to.
pub open spec fn target_view(target: Result<String, TargetError>) -> Result<Seq<char>, TargetError> {
    match target {
        Ok(text) => Ok(text@),
        Err(why) => Err(why),
    }
}

/// Accepts a URL as a target if it names a host.
pub fn accept_target(url: Option<ParsedUrl>) -> (target: Result<String, TargetError>)
    ensures
        target_view(target) == target_of(url_view(url)),
{
    match url {
        Some(u) => {
            if u.has_host {
                Ok(u.text)
            } else {
                Err(TargetError::NoHost)
            }
        },
        None => Err(TargetError::NotAUrl),
    }
}

/// The target that `url` names.
pub fn parse_target(url: &str) -> (target: Result<String, TargetError>)
    ensures
        target_view(target) == target_of(parsed_url(url@)),
{
    accept_target(parse_url(url))
}

/// The names of the stages that a collection called `name` is made of, in the
/// order in which data pass them: what triggers it, the query, what turns the
/// answer into telemetry, and what hands the telemetry out.
pub open spec fn stage_names(name: Seq<char>) -> Seq<Seq<char>> {
    seq![
        name + "-trigger-bridge"@,
        name + "-query"@,
        name + "-transform"@,
        name + "-output-bridge"@,
    ]
}

/// The links between those stages: from each to the next.
pub open spec fn stage_links() -> Seq<(usize, usize)> {
    seq![(0usize, 1usize), (1usize, 2usize), (2usize, 3usize)]
}

/// What a stage of a collection does.
#[derive(Debug, Clone, Copy, PartialEq, Eq, Structural)]
pub enum StageKind {
    /// Passes on each trigger.
    TriggerBridge,
    /// Queries the target at each trigger.
    Query,
    /// Turns each answer into telemetry.
    Transform,
    /// Hands out the telemetry.
    OutputBridge,
}

/// What the stages of a collection do, in the order of their names.
pub open spec fn stage_kinds() -> Seq<StageKind> {
    seq![
        StageKind::TriggerBridge,
        StageKind::Query,
        StageKind::Transform,
        StageKind::OutputBridge,
    ]
}

/// A stage of a collection.
#[derive(Debug)]
pub struct StagePlan {
    pub name: String,
    pub kind: StageKind,
}

/// The stages that do the work of a collection, how they are linked, and the
/// ports by which the graph that they form is open to the outside.
#[derive(Debug)]
pub struct GraphPlan {
    /// What is queried.
    pub target: String,
    /// The stages.
    pub stages: Vec<StagePlan>,
    /// From which stage, by its place in the list, to which data go.
    pub links: Vec<(usize, usize)>,
    /// The port by which triggers come in.
    pub trigger: Inlet,
    /// The place of the stage that takes the triggers.
    pub first: usize,
    /// The port by which telemetry goes out.
    pub outlet: Outlet,
    /// The place of the stage whose telemetry it is.
    pub last: usize,
}

impl GraphPlan {
    /// Whether this is the plan of a collection called `name` from `target`,
    /// whose trigger has the number `port`: the trigger feeds the first stage of
    /// the line, and the last stage feeds the outlet.
    pub open spec fn is_for(self, name: Seq<char>, target: Seq<char>, port: u64) -> bool {
        &&& self.target@ == target
        &&& self.stages@.map_values(|s: StagePlan| s.name@) == stage_names(name)
        &&& self.stages@.map_values(|s: StagePlan| s.kind) == stage_kinds()
        &&& self.links@ == stage_links()
        &&& self.trigger.name@ == "into_collection_graph"@
        &&& self.trigger.port == port
        &&& self.first == 0
        &&& self.outlet.name@ == "collection-outlet"@
        &&& self.outlet.port == 0
        &&& self.last == stage_names(name).len() - 1
    }
}

/// What is to be looked at when the wiring of a collection is checked.
#[derive(Debug, PartialEq, Eq, Structural)]
pub enum CheckStep {
    /// Whether something is attached to the trigger.
    Trigger,
    /// Whether something is attached to the outlet.
    Outlet,
    /// Whether the graph within is in order.
    Graph,
    /// Nothing: all is in order.
    Done,
}

/// What a look at the wiring showed. `P` is the error of a port, `S` that of a
/// stage in the graph.
#[derive(Debug)]
pub enum CheckReport<P, S> {
    Trigger(Result<(), P>),
    Outlet(Result<(), P>),
    Graph(Result<(), S>),
}

/// Why collection failed.
#[derive(Debug)]
pub enum CollectionError<P, S> {
    /// A port was not attached.
    Port(P),
    /// A stage of the graph failed.
    Stage(S),
}

/// Tailorable collection source: each time that it is triggered it queries its
/// target and hands out what it makes of the answer. `G` is the graph of stages
/// that does so.
#[derive(Debug)]
pub struct Collect<G> {
    pub name: String,
    pub target: String,
    /// The graph, until it is run.
    pub graph: Option<G>,
    pub trigger: Inlet,
    pub outlet: Outlet,
    /// What the outlet feeds.
    pub links: Links,
}

impl<G> Collect<G> {
    /// A collection from `url`, which is a target, whose trigger has the given
    /// number. Its graph is what `build` makes of the plan.
    pub fn new<S: Into<String>, B: FnOnce(GraphPlan) -> G>(
        name: S,
        url: &str,
        port: u64,
        build: B,
    ) -> (collect: Collect<G>)
        requires
            target_of(parsed_url(url@)) is Ok,
            forall|plan: GraphPlan, n: Seq<char>, t: Seq<char>| #[trigger]
                plan.is_for(n, t, port) ==> call_requires(build, (plan,)),
        ensures
            collect.is_from(name, url@, port, build),
    {
        let target = parse_target(url).expect("failed to parse url");
        let name: String = name.into();
        let plan = Collect::<G>::make_graph(name.as_str(), target.clone(), port);
        let trigger = plan.trigger.clone();
        let outlet = plan.outlet.clone();
        let ghost (planned, builder) = (plan, build);
        let graph = build(plan);
        let collect = Collect {
            name,
            target,
            graph: Some(graph),
            trigger,
            outlet,
            links: Links::new(),
        };
        assert(call_ensures(builder, (planned,), collect.graph->Some_0));
        collect
    }

    /// A collection from `url`, if that is a target, or else why it is none. Its
    /// trigger has the given number and its graph is what `build` makes of the
    /// plan.
    pub fn try_new<S: Into<String>, B: FnOnce(GraphPlan) -> G>(
        name: S,
        url: &str,
        port: u64,
        build: B,
    ) -> (collect: Result<Collect<G>, TargetError>)
        requires
            forall|plan: GraphPlan, n: Seq<char>, t: Seq<char>| #[trigger]
                plan.is_for(n, t, port) ==> call_requires(build, (plan,)),
        ensures
            match collect {
                Ok(c) => target_of(parsed_url(url@)) is Ok && c.is_from(name, url@, port, build),
                Err(why) => target_of(parsed_url(url@)) == Err::<Seq<char>, TargetError>(why),
            },
    {
        match parse_target(url) {
            Ok(_) => Ok(Collect::new(name, url, port, build)),
            Err(why) => Err(why),
        }
    }

    /// Whether this is a collection, not yet started or connected, from the
    /// target that `url` stands for, whose graph is what `build` made of the plan
    /// for its name and target, and whose ports are the open ends of that plan.
    pub open spec fn is_from<S: Into<String>, B: FnOnce(GraphPlan) -> G>(
        self,
        name: S,
        url: Seq<char>,
        port: u64,
        build: B,
    ) -> bool {
        &&& crate::text::is_text_of(name, self.name)
        &&& target_of(parsed_url(url)) == Ok::<Seq<char>, TargetError>(self.target@)
        &&& exists|plan: GraphPlan|
            {
                &&& plan.is_for(self.name@, self.target@, port)
                &&& self.graph is Some
                &&& #[trigger] call_ensures(build, (plan,), self.graph->Some_0)
                &&& self.trigger == plan.trigger
                &&& self.outlet == plan.outlet
            }
        &&& self.links@ == Map::<u64, u64>::empty()
    }

    /// The plan of a collection called `name` from `target`, whose trigger has
    /// the given number.
    pub fn make_graph(name: &str, target: String, port: u64) -> (plan: GraphPlan)
        ensures
            plan.is_for(name@, target@, port),
    {
        let mut stages: Vec<StagePlan> = Vec::new();
        stages.push(
            StagePlan {
                name: String::from(name).concat("-trigger-bridge"),
                kind: StageKind::TriggerBridge,
            },
        );
        stages.push(
            StagePlan { name: String::from(name).concat("-query"), kind: StageKind::Query },
        );
        stages.push(
            StagePlan { name: String::from(name).concat("-transform"), kind: StageKind::Transform },
        );
        stages.push(
            StagePlan {
                name: String::from(name).concat("-output-bridge"),
                kind: StageKind::OutputBridge,
            },
        );
        let mut links: Vec<(usize, usize)> = Vec::new();
        links.push((0, 1));
        links.push((1, 2));
        links.push((2, 3));
        let plan = GraphPlan {
            target,
            stages,
            links,
            trigger: Inlet::new("into_collection_graph", port),
            first: 0,
            outlet: Outlet::new("collection-outlet", 0),
            last: 3,
        };
        proof {
            assert(plan.stages@.map_values(|s: StagePlan| s.name@) =~= stage_names(name@));
            assert(plan.stages@.map_values(|s: StagePlan| s.kind) =~= stage_kinds());
            assert(plan.links@ =~= stage_links());
        }
        plan
    }

    /// The name of the collection.
    pub fn name(&self) -> (name: &str)
        ensures
            name@ == self.name@,
    {
        self.name.as_str()
    }

    /// The port that triggers the collection.
    pub fn inlet(&self) -> (inlet: Inlet)
        ensures
            inlet == self.trigger,
    {
        self.trigger.clone()
    }

    /// The port by which telemetry is handed out.
    pub fn outlet(&self) -> (outlet: Outlet)
        ensures
            outlet == self.outlet,
    {
        self.outlet.clone()
    }

    /// The collection once its graph was given out.
    pub open spec fn started(self) -> Collect<G> {
        Collect { graph: None, ..self }
    }

    /// Gives out the graph to be run, which happens once: where it is gone
    /// already there is nothing to run.
    pub fn start(&mut self) -> (graph: Option<G>)
        ensures
            graph == old(self).graph,
            *final(self) == old(self).started(),
    {
        self.graph.take()
    }

    /// What a run of the collection comes to, where its graph would end with
    /// `end`: that end if there is a graph to run, else nothing.
    pub open spec fn ran<S>(self, end: Result<(), S>) -> Option<Result<(), S>> {
        match self.graph {
            Some(_) => Some(end),
            None => None,
        }
    }

    /// What to look at after `step`.
    pub open spec fn step_after(self, step: CheckStep) -> CheckStep {
        match step {
            CheckStep::Trigger => CheckStep::Outlet,
            CheckStep::Outlet => if self.graph is Some {
                CheckStep::Graph
            } else {
                CheckStep::Done
            },
            CheckStep::Graph => CheckStep::Done,
            CheckStep::Done => CheckStep::Done,
        }
    }

    /// Goes on with the check of the wiring: the first thing out of order ends
    /// it; otherwise it says what to look at next.
    pub fn next_check<P, S>(&self, report: CheckReport<P, S>) -> (next: Result<
        CheckStep,
        CollectionError<P, S>,
    >)
        ensures
            next == match report {
                CheckReport::Trigger(Ok(())) => Ok(self.step_after(CheckStep::Trigger)),
                CheckReport::Trigger(Err(e)) => Err(CollectionError::Port(e)),
                CheckReport::Outlet(Ok(())) => Ok(self.step_after(CheckStep::Outlet)),
                CheckReport::Outlet(Err(e)) => Err(CollectionError::Port(e)),
                CheckReport::Graph(Ok(())) => Ok(self.step_after(CheckStep::Graph)),
                CheckReport::Graph(Err(e)) => Err(CollectionError::Stage(e)),
            },
    {
        match report {
            CheckReport::Trigger(Ok(())) => Ok(CheckStep::Outlet),
            CheckReport::Trigger(Err(e)) => Err(CollectionError::Port(e)),
            CheckReport::Outlet(Ok(())) => {
                if self.graph.is_some() {
                    Ok(CheckStep::Graph)
                } else {
                    Ok(CheckStep::Done)
                }
            },
            CheckReport::Outlet(Err(e)) => Err(CollectionError::Port(e)),
            CheckReport::Graph(Ok(())) => Ok(CheckStep::Done),
            CheckReport::Graph(Err(e)) => Err(CollectionError::Stage(e)),
        }
    }
}

/// How a run of a collection ends: as its graph did, where there was one to run,
/// and else well.
pub open spec fn run_outcome<P, S>(ran: Option<Result<(), S>>) -> Result<
    (),
    CollectionError<P, S>,
> {
    match ran {
        Some(Err(e)) => Err(CollectionError::Stage(e)),
        _ => Ok(()),
    }
}

/// How a run of a collection ends, where `ran` is how its graph ended, or `None`
/// where there was none to run.
pub fn finished<P, S>(ran: Option<Result<(), S>>) -> (outcome: Result<(), CollectionError<P, S>>)
    ensures
        outcome == run_outcome::<P, S>(ran),
{
    match ran {
        Some(Err(e)) => Err(CollectionError::Stage(e)),
        _ => Ok(()),
    }
}

/// No two stages of a collection have the same name.
pub proof fn law_stage_names_differ(name: Seq<char>, i: int, j: int)
    requires
        0 <= i < j < stage_names(name).len(),
    ensures
        stage_names(name)[i] != stage_names(name)[j],
{
    reveal_strlit("-trigger-bridge");
    reveal_strlit("-query");
    reveal_strlit("-transform");
    reveal_strlit("-output-bridge");
    assert(stage_names(name)[i].len() != stage_names(name)[j].len());
}

/// The stages form one line: data go from each stage to the next, from the first
/// to the last, and nowhere else.
pub proof fn law_stages_form_a_line(name: Seq<char>, from: usize, to: usize)
    ensures
        stage_links().contains((from, to)) <==> from + 1 == to && to < stage_names(name).len(),
{
}

/// A collection that was started has nothing more to run, however often it is
/// started again.
pub proof fn law_started_once<G>(collect: Collect<G>)
    ensures
        collect.started().graph is None,
        collect.started().started() == collect.started(),
{
}

/// The first run of a collection runs its graph and ends as the graph does, an
/// error being that of a stage. After it the graph is gone, however it ended: a
/// second run runs nothing and ends well.
pub proof fn law_second_run_does_nothing<G, P, S>(
    collect: Collect<G>,
    first: Result<(), S>,
    second: Result<(), S>,
)
    requires
        collect.graph is Some,
    ensures
        run_outcome::<P, S>(collect.ran(first)) == match first {
            Ok(()) => Ok::<(), CollectionError<P, S>>(()),
            Err(e) => Err(CollectionError::Stage(e)),
        },
        collect.started().graph is None,
        collect.started().ran(second) is None,
        run_outcome::<P, S>(collect.started().ran(second)) == Ok::<(), CollectionError<P, S>>(()),
{
}

/// A check looks at the trigger, then at the outlet, then at the graph if there
/// still is one, and then is done.
pub proof fn law_check_order<G>(collect: Collect<G>)
    ensures
        collect.step_after(CheckStep::Trigger) == CheckStep::Outlet,
        collect.graph is Some ==> collect.step_after(collect.step_after(CheckStep::Trigger))
            == CheckStep::Graph,
        collect.graph is Some ==> collect.step_after(
            collect.step_after(collect.step_after(CheckStep::Trigger)),
        ) == CheckStep::Done,
        collect.graph is None ==> collect.step_after(collect.step_after(CheckStep::Trigger))
            == CheckStep::Done,
{
}

/// A URL that names a host is accepted with its whole text, one without a host is
/// refused as such, and what is no URL is refused as that.
pub proof fn law_accept_target(url: Option<ParsedUrl>, target: Result<String, TargetError>)
    requires
        call_ensures(accept_target, (url,), target),
    ensures
        url is Some && url->Some_0.has_host ==> target is Ok && target->Ok_0@
            == url->Some_0.text@,
        url is Some && !url->Some_0.has_host ==> target is Err && target->Err_0 is NoHost,
        url is None ==> target is Err && target->Err_0 is NotAUrl,
{
}

/// A text that parses to a URL with a host is accepted as the whole text of that
/// URL, one that parses to a URL without a host is refused as such, and one that
/// does not parse is refused as that.
pub proof fn law_parse_target(
    url: &str,
    target: Result<String, TargetError>,
    text: Seq<char>,
    has_host: bool,
)
    requires
        call_ensures(parse_target, (url,), target),
    ensures
        parsed_url(url@) == Some((text, has_host)) && has_host ==> target is Ok && target->Ok_0@
            == text,
        parsed_url(url@) == Some((text, has_host)) && !has_host ==> target is Err && target->Err_0
            is NoHost,
        parsed_url(url@) is None ==> target is Err && target->Err_0 is NotAUrl,
{
}

/// What a parsed text stands for as a target.
pub proof fn law_target_of(text: Seq<char>)
    ensures
        target_of(Some((text, true))) == Ok::<Seq<char>, TargetError>(text),
        target_of(Some((text, false))) == Err::<Seq<char>, TargetError>(TargetError::NoHost),
        target_of(None) == Err::<Seq<char>, TargetError>(TargetError::NotAUrl),
{
}

/// The plan of a collection: its target, its four stages in line, each named after
/// the collection, and the ports at the two ends of the line.
pub proof fn law_make_graph<G>(name: &str, target: String, port: u64, plan: GraphPlan)
    requires
        call_ensures(Collect::<G>::make_graph, (name, target, port), plan),
    ensures
        plan.target@ == target@,
        plan.stages@.len() == 4,
        plan.stages@[0].name@ == name@ + "-trigger-bridge"@,
        plan.stages@[0].kind is TriggerBridge,
        plan.stages@[1].name@ == name@ + "-query"@,
        plan.stages@[1].kind is Query,
        plan.stages@[2].name@ == name@ + "-transform"@,
        plan.stages@[2].kind is Transform,
        plan.stages@[3].name@ == name@ + "-output-bridge"@,
        plan.stages@[3].kind is OutputBridge,
        plan.links@.len() == 3,
        forall|i: int|
            0 <= i < 3 ==> (#[trigger] plan.links@[i]).0 == i && plan.links@[i].1 == i + 1,
        plan.trigger.name@ == "into_collection_graph"@,
        plan.trigger.port == port,
        plan.first == 0,
        plan.outlet.name@ == "collection-outlet"@,
        plan.outlet.port == 0,
        plan.last == 3,
{
    let names = plan.stages@.map_values(|s: StagePlan| s.name@);
    let kinds = plan.stages@.map_values(|s: StagePlan| s.kind);
    assert(names.len() == plan.stages@.len());
    assert forall|i: int| 0 <= i < plan.stages@.len() implies #[trigger] plan.stages@[i].name@
        == names[i] && plan.stages@[i].kind == kinds[i] by {}
}

/// What `is_from` says of a collection.
proof fn lemma_made_from<G, B: FnOnce(GraphPlan) -> G>(
    collect: Collect<G>,
    name: &str,
    url: Seq<char>,
    port: u64,
    build: B,
)
    requires
        collect.is_from(name, url, port, build),
    ensures
        collect.name@ == name@,
        parsed_url(url) == Some((collect.target@, true)),
        forall|p: u64| !(#[trigger] collect.links@.contains_key(p)),
        collect.graph is Some,
        collect.trigger.name@ == "into_collection_graph"@,
        collect.trigger.port == port,
        collect.outlet.name@ == "collection-outlet"@,
        collect.outlet.port == 0,
        exists|plan: GraphPlan| #[trigger]
            call_ensures(build, (plan,), collect.graph->Some_0) && {
                &&& plan.target@ == collect.target@
                &&& plan.stages@.len() == 4
                &&& plan.stages@[0].name@ == name@ + "-trigger-bridge"@
                &&& plan.stages@[0].kind is TriggerBridge
                &&& plan.stages@[1].name@ == name@ + "-query"@
                &&& plan.stages@[1].kind is Query
                &&& plan.stages@[2].name@ == name@ + "-transform"@
                &&& plan.stages@[2].kind is Transform
                &&& plan.stages@[3].name@ == name@ + "-output-bridge"@
                &&& plan.stages@[3].kind is OutputBridge
                &&& plan.links@ == seq![(0usize, 1usize), (1usize, 2usize), (2usize, 3usize)]
                &&& plan.trigger == collect.trigger
                &&& plan.first == 0
                &&& plan.outlet == collect.outlet
                &&& plan.last == 3
            },
{
    match parsed_url(url) {
        Some((text, true)) => {},
        Some((text, false)) => {},
        None => {},
    }
    let plan = choose|plan: GraphPlan|
        {
            &&& plan.is_for(collect.name@, collect.target@, port)
            &&& collect.graph is Some
            &&& #[trigger] call_ensures(build, (plan,), collect.graph->Some_0)
            &&& collect.trigger == plan.trigger
            &&& collect.outlet == plan.outlet
        };
    let names = plan.stages@.map_values(|s: StagePlan| s.name@);
    let kinds = plan.stages@.map_values(|s: StagePlan| s.kind);
    assert(names.len() == plan.stages@.len());
    assert forall|i: int| 0 <= i < plan.stages@.len() implies #[trigger] plan.stages@[i].name@
        == names[i] && plan.stages@[i].kind == kinds[i] by {}
    assert(call_ensures(build, (plan,), collect.graph->Some_0));
}

/// A collection from a text that is a target has the given name, the whole text of
/// the URL that the text parses to as its target, the graph that the builder made
/// of the plan for both, and the open ends of that plan as its ports, which are
/// not connected yet.
pub proof fn law_new_collection<G, B: FnOnce(GraphPlan) -> G>(
    name: &str,
    url: &str,
    port: u64,
    build: B,
    collect: Collect<G>,
)
    requires
        call_ensures(Collect::<G>::new::<&str, B>, (name, url, port, build), collect),
    ensures
        collect.name@ == name@,
        parsed_url(url@) == Some((collect.target@, true)),
        forall|p: u64| !(#[trigger] collect.links@.contains_key(p)),
        collect.graph is Some,
        collect.trigger.name@ == "into_collection_graph"@,
        collect.trigger.port == port,
        collect.outlet.name@ == "collection-outlet"@,
        collect.outlet.port == 0,
        exists|plan: GraphPlan| #[trigger]
            call_ensures(build, (plan,), collect.graph->Some_0) && {
                &&& plan.target@ == collect.target@
                &&& plan.stages@.len() == 4
                &&& plan.stages@[0].name@ == name@ + "-trigger-bridge"@
                &&& plan.stages@[0].kind is TriggerBridge
                &&& plan.stages@[1].name@ == name@ + "-query"@
                &&& plan.stages@[1].kind is Query
                &&& plan.stages@[2].name@ == name@ + "-transform"@
                &&& plan.stages@[2].kind is Transform
                &&& plan.stages@[3].name@ == name@ + "-output-bridge"@
                &&& plan.stages@[3].kind is OutputBridge
                &&& plan.links@ == seq![(0usize, 1usize), (1usize, 2usize), (2usize, 3usize)]
                &&& plan.trigger == collect.trigger
                &&& plan.first == 0
                &&& plan.outlet == collect.outlet
                &&& plan.last == 3
            },
{
    lemma_made_from(collect, name, url@, port, build);
}

/// A collection is made if and only if the text parses to a URL with a host, and
/// then as one from a target is made; otherwise it is said what the text lacks.
pub proof fn law_try_new_collection<G, B: FnOnce(GraphPlan) -> G>(
    name: &str,
    url: &str,
    port: u64,
    build: B,
    made: Result<Collect<G>, TargetError>,
)
    requires
        call_ensures(Collect::<G>::try_new::<&str, B>, (name, url, port, build), made),
    ensures
        parsed_url(url@) is None <==> made is Err && made->Err_0 is NotAUrl,
        parsed_url(url@) is Some && !parsed_url(url@)->Some_0.1 <==> made is Err && made->Err_0
            is NoHost,
        made matches Ok(collect) ==> {
            &&& collect.name@ == name@
            &&& parsed_url(url@) == Some((collect.target@, true))
            &&& forall|p: u64| !(#[trigger] collect.links@.contains_key(p))
            &&& collect.graph is Some
            &&& collect.trigger.name@ == "into_collection_graph"@
            &&& collect.trigger.port == port
            &&& collect.outlet.name@ == "collection-outlet"@
            &&& collect.outlet.port == 0
            &&& exists|plan: GraphPlan| #[trigger]
                call_ensures(build, (plan,), collect.graph->Some_0) && {
                    &&& plan.target@ == collect.target@
                    &&& plan.stages@.len() == 4
                    &&& plan.stages@[0].name@ == name@ + "-trigger-bridge"@
                    &&& plan.stages@[0].kind is TriggerBridge
                    &&& plan.stages@[1].name@ == name@ + "-query"@
                    &&& plan.stages@[1].kind is Query
                    &&& plan.stages@[2].name@ == name@ + "-transform"@
                    &&& plan.stages@[2].kind is Transform
                    &&& plan.stages@[3].name@ == name@ + "-output-bridge"@
                    &&& plan.stages@[3].kind is OutputBridge
                    &&& plan.links@ == seq![(0usize, 1usize), (1usize, 2usize), (2usize, 3usize)]
                    &&& plan.trigger == collect.trigger
                    &&& plan.first == 0
                    &&& plan.outlet == collect.outlet
                    &&& plan.last == 3
                }
        },
{
    match parsed_url(url@) {
        Some((text, true)) => {},
        Some((text, false)) => {},
        None => {},
    }
    if made is Ok {
        lemma_made_from(made->Ok_0, name, url@, port, build);
    }
}

/// A collection tells its name and hands out its ports as they are.
pub proof fn law_collection_parts<G>(
    collect: &Collect<G>,
    name: &str,
    inlet: Inlet,
    outlet: Outlet,
)
    requires
        call_ensures(Collect::<G>::name, (collect,), name),
        call_ensures(Collect::<G>::inlet, (collect,), inlet),
        call_ensures(Collect::<G>::outlet, (collect,), outlet),
    ensures
        name@ == collect.name@,
        inlet.name@ == collect.trigger.name@,
        inlet.port == collect.trigger.port,
        outlet.name@ == collect.outlet.name@,
        outlet.port == collect.outlet.port,
{
}

/// A start gives out the graph, if it is still there, and takes it away; it leaves
/// all else as it was.
pub proof fn law_start<G>(collect: &mut Collect<G>, graph: Option<G>)
    requires
        call_ensures(Collect::<G>::start, (collect,), graph),
    ensures
        graph == old(collect).graph,
        final(collect).graph is None,
        final(collect).name == old(collect).name,
        final(collect).target == old(collect).target,
        final(collect).trigger == old(collect).trigger,
        final(collect).outlet == old(collect).outlet,
        final(collect).links == old(collect).links,
{
}

/// A run ends with the error of its graph, if that was run and failed, as the
/// error of a stage, and well in every other case.
pub proof fn law_finished<P, S>(
    ran: Option<Result<(), S>>,
    outcome: Result<(), CollectionError<P, S>>,
)
    requires
        call_ensures(finished::<P, S>, (ran,), outcome),
    ensures
        ran is None ==> outcome is Ok,
        ran matches Some(Ok(())) ==> outcome is Ok,
        ran matches Some(Err(e)) ==> outcome is Err && outcome->Err_0 == CollectionError::<
            P,
            S,
        >::Stage(e),
{
}

/// A check ends with the first thing that is out of order: a port's error as that
/// of a port, the graph's as that of a stage. Otherwise the trigger is followed by
/// the outlet, the outlet by the graph if there still is one, and then all is
/// done.
pub proof fn law_next_check<G, P, S>(
    collect: &Collect<G>,
    report: CheckReport<P, S>,
    next: Result<CheckStep, CollectionError<P, S>>,
)
    requires
        call_ensures(Collect::<G>::next_check::<P, S>, (collect, report), next),
    ensures
        report matches CheckReport::Trigger(Ok(())) ==> next is Ok && next->Ok_0 is Outlet,
        report matches CheckReport::Outlet(Ok(())) ==> next is Ok && (if collect.graph is Some {
            next->Ok_0 is Graph
        } else {
            next->Ok_0 is Done
        }),
        report matches CheckReport::Graph(Ok(())) ==> next is Ok && next->Ok_0 is Done,
        report matches CheckReport::Trigger(Err(e)) ==> next is Err && next->Err_0
            == CollectionError::<P, S>::Port(e),
        report matches CheckReport::Outlet(Err(e)) ==> next is Err && next->Err_0
            == CollectionError::<P, S>::Port(e),
        report matches CheckReport::Graph(Err(e)) ==> next is Err && next->Err_0
            == CollectionError::<P, S>::Stage(e),
{
}

} // verus!
