//! The XBRL instance decoder: the unit and context dictionaries are built
//! first, then one resolving pass over the top-level elements joins each
//! fact against them by reference id.

use vstd::prelude::*;
use crate::error::{missing_element, prepend_items, result_matches, ParseError, ParseErrorView};
use crate::reader::{parse_tree, xml_parse};
use crate::value::{coerced, parse_value, Value, ValueView};
use crate::xml::{attr_of, child_of, child_text, find_attr, find_child, get_string, opt_string,
    str_eq, text_of, text_or_default, text_or_empty, text_string, XmlNode};

verus! {

/// One dimensional qualification of a context: which axis, which member.
/// Both carry any namespace prefix already stripped.
#[derive(Debug, PartialEq, Eq)]
pub struct Segment {
    pub dimension: String,
    pub member: String,
}

/// The reporting period of a context: an instant, or a start and end date,
/// or, legally, neither.
#[derive(Debug, PartialEq, Eq)]
pub struct Period {
    pub instant: Option<String>,
    pub start_date: Option<String>,
    pub end_date: Option<String>,
}

/// What qualifies a fact: the reporting entity, its dimensional segments in
/// document order, and the period.
#[derive(Debug, PartialEq, Eq)]
pub struct Context {
    pub entity: String,
    pub segments: Vec<Segment>,
    pub period: Period,
}

/// One reported value: its own copy of the context, the concept (the
/// element's local tag name), the coerced value, and the optional decimals
/// attribute and resolved unit measure.
#[derive(Debug, PartialEq)]
pub struct Fact {
    pub context: Context,
    pub concept: String,
    pub value: Value,
    pub decimals: Option<String>,
    pub unit: Option<String>,
}

/// An XBRL instance: its facts, in source document order.
#[derive(Debug, PartialEq)]
pub struct Document {
    pub facts: Vec<Fact>,
}

pub struct SegmentView {
    pub dimension: Seq<char>,
    pub member: Seq<char>,
}

pub struct PeriodView {
    pub instant: Option<Seq<char>>,
    pub start_date: Option<Seq<char>>,
    pub end_date: Option<Seq<char>>,
}

pub struct ContextView {
    pub entity: Seq<char>,
    pub segments: Seq<SegmentView>,
    pub period: PeriodView,
}

pub struct FactView {
    pub context: ContextView,
    pub concept: Seq<char>,
    pub value: ValueView,
    pub decimals: Option<Seq<char>>,
    pub unit: Option<Seq<char>>,
}

pub struct DocumentView {
    pub facts: Seq<FactView>,
}

impl DeepView for Segment {
    type V = SegmentView;

    open spec fn deep_view(&self) -> SegmentView {
        SegmentView { dimension: self.dimension@, member: self.member@ }
    }
}

impl DeepView for Period {
    type V = PeriodView;

    open spec fn deep_view(&self) -> PeriodView {
        PeriodView {
            instant: self.instant.deep_view(),
            start_date: self.start_date.deep_view(),
            end_date: self.end_date.deep_view(),
        }
    }
}

impl DeepView for Context {
    type V = ContextView;

    open spec fn deep_view(&self) -> ContextView {
        ContextView {
            entity: self.entity@,
            segments: self.segments.deep_view(),
            period: self.period.deep_view(),
        }
    }
}

impl DeepView for Fact {
    type V = FactView;

    open spec fn deep_view(&self) -> FactView {
        FactView {
            context: self.context.deep_view(),
            concept: self.concept@,
            value: self.value.deep_view(),
            decimals: self.decimals.deep_view(),
            unit: self.unit.deep_view(),
        }
    }
}

impl DeepView for Document {
    type V = DocumentView;

    open spec fn deep_view(&self) -> DocumentView {
        DocumentView { facts: self.facts.deep_view() }
    }
}

fn clone_opt_string(o: &Option<String>) -> (r: Option<String>)
    ensures
        r.deep_view() == o.deep_view(),
{
    match o {
        Some(s) => Some(s.clone()),
        None => None,
    }
}

impl Clone for Segment {
    /// A clone carries the same fields.
    fn clone(&self) -> (r: Self)
        ensures
            r.deep_view() == self.deep_view(),
    {
        Segment { dimension: self.dimension.clone(), member: self.member.clone() }
    }
}

impl Clone for Period {
    /// A clone carries the same fields.
    fn clone(&self) -> (r: Self)
        ensures
            r.deep_view() == self.deep_view(),
    {
        Period {
            instant: clone_opt_string(&self.instant),
            start_date: clone_opt_string(&self.start_date),
            end_date: clone_opt_string(&self.end_date),
        }
    }
}

impl Clone for Context {
    /// A clone carries the same fields: each fact owns its context.
    fn clone(&self) -> (r: Self)
        ensures
            r.deep_view() == self.deep_view(),
    {
        let n = self.segments.len();
        let mut segments: Vec<Segment> = Vec::new();
        let mut i: usize = 0;
        while i < n
            invariant
                0 <= i <= n,
                n == self.segments@.len(),
                segments.deep_view() == self.segments.deep_view().take(i as int),
            decreases n - i,
        {
            let ghost pre = segments.deep_view();
            let x = self.segments[i].clone();
            proof {
                assert(x.deep_view() == self.segments.deep_view()[i as int]);
            }
            segments.push(x);
            proof {
                assert(segments.deep_view() =~~= pre.push(x.deep_view()));
                assert(segments.deep_view() =~~= self.segments.deep_view().take(i + 1 as int));
            }
            i += 1;
        }
        proof {
            assert(self.segments.deep_view().take(n as int) =~~= self.segments.deep_view());
        }
        Context { entity: self.entity.clone(), segments, period: self.period.clone() }
    }
}

/// The id a unit declaration carries, or empty where it has none.
pub open spec fn unit_id(u: XmlNode) -> Seq<char> {
    match attr_of(u, "id"@) {
        Some(v) => v,
        None => Seq::empty(),
    }
}

/// The measure text under one side of a `divide`: the named part's
/// `measure` child, or empty at any break in the chain.
pub open spec fn measure_under(d: XmlNode, part: Seq<char>) -> Seq<char> {
    match child_of(d, part) {
        Some(p) => match child_text(p, "measure"@) {
            Some(t) => t,
            None => Seq::empty(),
        },
        None => Seq::empty(),
    }
}

/// The canonical measure a unit declaration resolves to: a bare `measure`
/// text, or `numerator/denominator` where the unit divides two measures.
/// No malformed unit is an error; absent parts degrade to empty strings.
pub open spec fn unit_measure(u: XmlNode) -> Seq<char> {
    match child_of(u, "divide"@) {
        Some(d) => measure_under(d, "unitNumerator"@) + "/"@ + measure_under(
            d,
            "unitDenominator"@,
        ),
        None => match child_text(u, "measure"@) {
            Some(t) => t,
            None => Seq::empty(),
        },
    }
}

/// The id-to-measure entries the `unit` children at or after `i` declare,
/// in document order.
pub open spec fn unit_entries(s: Seq<XmlNode>, i: int) -> Seq<(Seq<char>, Seq<char>)>
    decreases s.len() - i,
{
    if i < 0 || i >= s.len() {
        Seq::empty()
    } else {
        let rest = unit_entries(s, i + 1);
        if s[i].tag@ == "unit"@ {
            seq![(unit_id(s[i]), unit_measure(s[i]))] + rest
        } else {
            rest
        }
    }
}

/// The measure `key` resolves to: the last declaration wins, as an insert
/// into a map overwrites.
pub open spec fn lookup_measure(es: Seq<(Seq<char>, Seq<char>)>, key: Seq<char>) -> Option<
    Seq<char>,
>
    decreases es.len(),
{
    if es.len() == 0 {
        None
    } else if es.last().0 == key {
        Some(es.last().1)
    } else {
        lookup_measure(es.drop_last(), key)
    }
}

/// The position of the first colon at or after `i`.
pub open spec fn first_colon_from(s: Seq<char>, i: int) -> Option<int>
    decreases s.len() - i,
{
    if i < 0 || i >= s.len() {
        None
    } else if s[i] == ':' {
        Some(i)
    } else {
        first_colon_from(s, i + 1)
    }
}

/// The second colon-separated field of `s`: what stands between the first
/// colon and the second, or to the end where there is no second. A text
/// without any colon has no second field and yields the empty string.
pub open spec fn second_field(s: Seq<char>) -> Seq<char> {
    match first_colon_from(s, 0) {
        Some(k) => if 0 <= k < s.len() {
            let rest = s.skip(k + 1);
            match first_colon_from(rest, 0) {
                Some(m) => rest.take(m),
                None => rest,
            }
        } else {
            Seq::empty()
        },
        None => Seq::empty(),
    }
}

/// A name with no namespace qualifier has no second field: stripping it
/// yields the empty string, never the name itself.
pub proof fn lemma_unqualified_name_strips_to_empty(s: Seq<char>)
    requires
        first_colon_from(s, 0) is None,
    ensures
        second_field(s) == Seq::<char>::empty(),
{
}

/// The segment one `explicitMember` yields: its `dimension` attribute and
/// its text, each with the namespace qualifier stripped. An absent
/// attribute or absent text degrades to the empty name, exactly as an
/// unqualified one does; neither is an error.
pub open spec fn spec_segment(m: XmlNode) -> SegmentView {
    SegmentView {
        dimension: match attr_of(m, "dimension"@) {
            Some(d) => second_field(d),
            None => Seq::empty(),
        },
        member: match text_of(m) {
            Some(t) => second_field(t),
            None => Seq::empty(),
        },
    }
}

/// The segments the `explicitMember` children at or after `i` yield, in
/// document order.
pub open spec fn spec_members(s: Seq<XmlNode>, i: int) -> Seq<SegmentView>
    decreases s.len() - i,
{
    if i < 0 || i >= s.len() {
        Seq::empty()
    } else {
        let rest = spec_members(s, i + 1);
        if s[i].tag@ == "explicitMember"@ {
            seq![spec_segment(s[i])] + rest
        } else {
            rest
        }
    }
}

/// The segments the `segment` children at or after `i` contribute, each the
/// members it holds, concatenated in document order: not deduplicated, not
/// sorted.
pub open spec fn spec_segments(s: Seq<XmlNode>, i: int) -> Seq<SegmentView>
    decreases s.len() - i,
{
    if i < 0 || i >= s.len() {
        Seq::empty()
    } else {
        let rest = spec_segments(s, i + 1);
        if s[i].tag@ == "segment"@ {
            spec_members(s[i].children@, 0) + rest
        } else {
            rest
        }
    }
}

/// The period of a context: the three date fields read independently from
/// the `period` child, each `None` where absent. An absent `period` child
/// leaves all three `None` — legal, merely informationally empty.
pub open spec fn spec_period(c: XmlNode) -> PeriodView {
    match child_of(c, "period"@) {
        Some(p) => PeriodView {
            instant: child_text(p, "instant"@),
            start_date: child_text(p, "startDate"@),
            end_date: child_text(p, "endDate"@),
        },
        None => PeriodView { instant: None, start_date: None, end_date: None },
    }
}

/// What one `context` declaration yields: its id as the key, and the
/// entity, segments and period. Only the id and the `entity` to
/// `identifier` text chain are required — their absence is fatal to the
/// whole document; everything else degrades without error.
pub open spec fn spec_context(c: XmlNode) -> Result<(Seq<char>, ContextView), ParseErrorView> {
    match attr_of(c, "id"@) {
        None => Err(ParseErrorView::MissingRequiredElement("id"@)),
        Some(id) => match child_of(c, "entity"@) {
            None => Err(ParseErrorView::MissingRequiredElement("entity"@)),
            Some(ent) => match child_text(ent, "identifier"@) {
                None => Err(ParseErrorView::MissingRequiredElement("identifier"@)),
                Some(entity) => Ok(
                    (
                        id,
                        ContextView {
                            entity,
                            segments: spec_segments(ent.children@, 0),
                            period: spec_period(c),
                        },
                    ),
                ),
            },
        },
    }
}

/// The id-to-context entries the `context` children at or after `i`
/// declare, in document order, or the first failure.
pub open spec fn spec_contexts(s: Seq<XmlNode>, i: int) -> Result<
    Seq<(Seq<char>, ContextView)>,
    ParseErrorView,
>
    decreases s.len() - i,
{
    if i < 0 || i >= s.len() {
        Ok(Seq::empty())
    } else {
        let rest = spec_contexts(s, i + 1);
        if s[i].tag@ == "context"@ {
            match spec_context(s[i]) {
                Ok(p) => prepend_items(seq![p], rest),
                Err(e) => Err(e),
            }
        } else {
            rest
        }
    }
}

/// The context `key` resolves to: the last declaration wins.
pub open spec fn lookup_context(es: Seq<(Seq<char>, ContextView)>, key: Seq<char>) -> Option<
    ContextView,
>
    decreases es.len(),
{
    if es.len() == 0 {
        None
    } else if es.last().0 == key {
        Some(es.last().1)
    } else {
        lookup_context(es.drop_last(), key)
    }
}

/// The fact a resolved top-level element yields: the concept is the local
/// tag name, the value is the coerced text (empty where there is none), and
/// a `unitRef` that does not resolve leaves the unit `None`.
pub open spec fn spec_fact(
    n: XmlNode,
    ctx: ContextView,
    units: Seq<(Seq<char>, Seq<char>)>,
) -> FactView {
    FactView {
        context: ctx,
        concept: n.tag@,
        value: coerced(text_or_empty(n)),
        decimals: attr_of(n, "decimals"@),
        unit: match attr_of(n, "unitRef"@) {
            Some(u) => lookup_measure(units, u),
            None => None,
        },
    }
}

/// The facts the top-level elements at or after `i` yield, in document
/// order: one fact for each element carrying a `contextRef` that resolves in
/// the declared contexts; an element whose reference does not resolve is
/// dropped without error.
pub open spec fn spec_facts(
    s: Seq<XmlNode>,
    i: int,
    ctxs: Seq<(Seq<char>, ContextView)>,
    units: Seq<(Seq<char>, Seq<char>)>,
) -> Seq<FactView>
    decreases s.len() - i,
{
    if i < 0 || i >= s.len() {
        Seq::empty()
    } else {
        let rest = spec_facts(s, i + 1, ctxs, units);
        match attr_of(s[i], "contextRef"@) {
            Some(cref) => match lookup_context(ctxs, cref) {
                Some(ctx) => seq![spec_fact(s[i], ctx, units)] + rest,
                None => rest,
            },
            None => rest,
        }
    }
}

/// What an XBRL instance tree decodes to: the context dictionary is built
/// first (its failure is the document's), then every top-level fact is
/// joined against the dictionaries.
pub open spec fn spec_xbrl(root: XmlNode) -> Result<DocumentView, ParseErrorView> {
    match spec_contexts(root.children@, 0) {
        Err(e) => Err(e),
        Ok(ctxs) => Ok(
            DocumentView {
                facts: spec_facts(root.children@, 0, ctxs, unit_entries(root.children@, 0)),
            },
        ),
    }
}

/// The second colon-separated field of `s`, copied out.
fn second_field_str(s: &str) -> (r: String)
    ensures
        r@ == second_field(s@),
{
    let n = s.unicode_len();
    let mut i: usize = 0;
    let mut c1: usize = n;
    let mut found1 = false;
    while i < n
        invariant_except_break
            0 <= i <= n,
            n == s@.len(),
            !found1,
            first_colon_from(s@, 0) == first_colon_from(s@, i as int),
        ensures
            n == s@.len(),
            found1 ==> c1 < n && first_colon_from(s@, 0) == Some(c1 as int),
            !found1 ==> first_colon_from(s@, 0) is None,
        decreases n - i,
    {
        if s.get_char(i) == ':' {
            c1 = i;
            found1 = true;
            break;
        }
        i += 1;
    }
    if !found1 {
        let r = String::new();
        proof {
            assert(r@ =~= second_field(s@));
        }
        return r;
    }
    let rest = s.substring_char(c1 + 1, n);
    proof {
        assert(rest@ =~= s@.skip(c1 + 1 as int));
    }
    let m = rest.unicode_len();
    let mut j: usize = 0;
    let mut c2: usize = m;
    let mut found2 = false;
    while j < m
        invariant_except_break
            0 <= j <= m,
            m == rest@.len(),
            !found2,
            first_colon_from(rest@, 0) == first_colon_from(rest@, j as int),
        ensures
            m == rest@.len(),
            found2 ==> c2 < m && first_colon_from(rest@, 0) == Some(c2 as int),
            !found2 ==> first_colon_from(rest@, 0) is None,
        decreases m - j,
    {
        if rest.get_char(j) == ':' {
            c2 = j;
            found2 = true;
            break;
        }
        j += 1;
    }
    if found2 {
        let head = rest.substring_char(0, c2);
        proof {
            assert(head@ =~= second_field(s@));
        }
        head.to_owned()
    } else {
        rest.to_owned()
    }
}

fn measure_part(d: &XmlNode, part: &str) -> (r: String)
    ensures
        r@ == measure_under(*d, part@),
{
    match find_child(d, part) {
        Some(p) => match find_child(p, "measure") {
            Some(m) => text_or_default(m),
            None => String::new(),
        },
        None => String::new(),
    }
}

fn unit_measure_of(u: &XmlNode) -> (r: String)
    ensures
        r@ == unit_measure(*u),
{
    match find_child(u, "divide") {
        Some(d) => {
            let nu = measure_part(d, "unitNumerator");
            let de = measure_part(d, "unitDenominator");
            let joined = nu.concat("/");
            let joined = joined.concat(de.as_str());
            proof {
                assert(joined@ =~= unit_measure(*u));
            }
            joined
        },
        None => match find_child(u, "measure") {
            Some(m) => text_or_default(m),
            None => String::new(),
        },
    }
}

/// Scans the top-level `unit` declarations into the id-to-measure table, in
/// document order, as [`unit_entries`] says. No unit is ever an error.
pub fn parse_units(root: &XmlNode) -> (r: Vec<(String, String)>)
    ensures
        r.deep_view() == unit_entries(root.children@, 0),
{
    let mut out: Vec<(String, String)> = Vec::new();
    let n = root.children.len();
    let mut i: usize = 0;
    while i < n
        invariant
            0 <= i <= n,
            n == root.children@.len(),
            unit_entries(root.children@, 0) == out.deep_view() + unit_entries(
                root.children@,
                i as int,
            ),
        decreases n - i,
    {
        let ghost s = root.children@;
        let c = &root.children[i];
        if str_eq(c.tag.as_str(), "unit") {
            let id = match find_attr(c, "id") {
                Some(v) => v,
                None => String::new(),
            };
            let measure = unit_measure_of(c);
            let ghost pre = out.deep_view();
            let entry = (id, measure);
            proof {
                assert(entry.deep_view() == (unit_id(s[i as int]), unit_measure(s[i as int])));
            }
            out.push(entry);
            proof {
                assert(out.deep_view() =~~= pre.push(entry.deep_view()));
                assert(pre + (seq![entry.deep_view()] + unit_entries(s, i + 1 as int)) =~~= pre.push(
                    entry.deep_view(),
                ) + unit_entries(s, i + 1 as int));
            }
        }
        i += 1;
    }
    proof {
        assert(out.deep_view() + unit_entries(root.children@, n as int) =~~= out.deep_view());
    }
    out
}

/// Decodes one `explicitMember`, as [`spec_segment`] says.
fn parse_member(m: &XmlNode) -> (r: Segment)
    ensures
        r.deep_view() == spec_segment(*m),
{
    let dimension = match find_attr(m, "dimension") {
        Some(d) => second_field_str(d.as_str()),
        None => String::new(),
    };
    let member = match text_string(m) {
        Some(t) => second_field_str(t.as_str()),
        None => String::new(),
    };
    Segment { dimension, member }
}

/// Decodes the members one `segment` holds, as [`spec_members`] says.
fn parse_members(seg: &XmlNode) -> (r: Vec<Segment>)
    ensures
        r.deep_view() == spec_members(seg.children@, 0),
{
    let mut out: Vec<Segment> = Vec::new();
    let n = seg.children.len();
    let mut i: usize = 0;
    while i < n
        invariant
            0 <= i <= n,
            n == seg.children@.len(),
            spec_members(seg.children@, 0) == out.deep_view() + spec_members(
                seg.children@,
                i as int,
            ),
        decreases n - i,
    {
        let ghost s = seg.children@;
        let c = &seg.children[i];
        if str_eq(c.tag.as_str(), "explicitMember") {
            let ghost pre = out.deep_view();
            let item = parse_member(c);
            out.push(item);
            proof {
                assert(out.deep_view() =~~= pre.push(out@.last().deep_view()));
                assert(pre + (seq![out@.last().deep_view()] + spec_members(s, i + 1 as int))
                    =~~= out.deep_view() + spec_members(s, i + 1 as int));
            }
        }
        i += 1;
    }
    proof {
        assert(out.deep_view() + spec_members(seg.children@, n as int) =~~= out.deep_view());
    }
    out
}

/// Decodes the segments under one `entity`, as [`spec_segments`] says:
/// every `segment` child contributes its members, in document order.
fn parse_segments(ent: &XmlNode) -> (r: Vec<Segment>)
    ensures
        r.deep_view() == spec_segments(ent.children@, 0),
{
    let mut out: Vec<Segment> = Vec::new();
    let n = ent.children.len();
    let mut i: usize = 0;
    while i < n
        invariant
            0 <= i <= n,
            n == ent.children@.len(),
            spec_segments(ent.children@, 0) == out.deep_view() + spec_segments(
                ent.children@,
                i as int,
            ),
        decreases n - i,
    {
        let ghost s = ent.children@;
        let c = &ent.children[i];
        if str_eq(c.tag.as_str(), "segment") {
            let ghost pre = out.deep_view();
            let mut items = parse_members(c);
            let ghost mids = items.deep_view();
            out.append(&mut items);
            proof {
                assert(out.deep_view() =~~= pre + mids);
                assert(pre + (mids + spec_segments(s, i + 1 as int)) =~~= (pre + mids)
                    + spec_segments(s, i + 1 as int));
            }
        }
        i += 1;
    }
    proof {
        assert(out.deep_view() + spec_segments(ent.children@, n as int) =~~= out.deep_view());
    }
    out
}

/// Decodes one `context` declaration, as [`spec_context`] says.
fn parse_context_node(c: &XmlNode) -> (r: Result<(String, Context), ParseError>)
    ensures
        match r {
            Ok(p) => spec_context(*c) == Ok::<_, ParseErrorView>(p.deep_view()),
            Err(e) => spec_context(*c) == Err::<(Seq<char>, ContextView), _>(e.deep_view()),
        },
{
    let id = match find_attr(c, "id") {
        Some(v) => v,
        None => {
            return Err(missing_element("id"));
        },
    };
    let ent = match find_child(c, "entity") {
        Some(e) => e,
        None => {
            return Err(missing_element("entity"));
        },
    };
    let entity = match get_string(ent, "identifier") {
        Ok(s) => s,
        Err(e) => {
            return Err(e);
        },
    };
    let segments = parse_segments(ent);
    let period = match find_child(c, "period") {
        Some(p) => Period {
            instant: opt_string(p, "instant"),
            start_date: opt_string(p, "startDate"),
            end_date: opt_string(p, "endDate"),
        },
        None => Period { instant: None, start_date: None, end_date: None },
    };
    Ok((id, Context { entity, segments, period }))
}

/// Scans the top-level `context` declarations into the id-to-context table,
/// in document order, as [`spec_contexts`] says; the first bad declaration
/// fails the whole document.
pub fn parse_contexts(root: &XmlNode) -> (r: Result<Vec<(String, Context)>, ParseError>)
    ensures
        match r {
            Ok(v) => spec_contexts(root.children@, 0) == Ok::<_, ParseErrorView>(v.deep_view()),
            Err(e) => spec_contexts(root.children@, 0) == Err::<
                Seq<(Seq<char>, ContextView)>,
                _,
            >(e.deep_view()),
        },
{
    let mut out: Vec<(String, Context)> = Vec::new();
    let n = root.children.len();
    let mut i: usize = 0;
    while i < n
        invariant
            0 <= i <= n,
            n == root.children@.len(),
            spec_contexts(root.children@, 0) == prepend_items(
                out.deep_view(),
                spec_contexts(root.children@, i as int),
            ),
        decreases n - i,
    {
        let ghost s = root.children@;
        let c = &root.children[i];
        if str_eq(c.tag.as_str(), "context") {
            let ghost pre = out.deep_view();
            match parse_context_node(c) {
                Ok(p) => {
                    out.push(p);
                    proof {
                        assert(out.deep_view() =~~= pre.push(out@.last().deep_view()));
                        match spec_contexts(s, i + 1 as int) {
                            Ok(rest) => {
                                assert(pre + (seq![out@.last().deep_view()] + rest)
                                    =~~= out.deep_view() + rest);
                            },
                            Err(_) => {},
                        }
                    }
                },
                Err(e) => {
                    return Err(e);
                },
            }
        }
        i += 1;
    }
    proof {
        assert(spec_contexts(root.children@, n as int) == Ok::<_, ParseErrorView>(
            Seq::<(Seq<char>, ContextView)>::empty(),
        ));
        assert(out.deep_view() + Seq::<(Seq<char>, ContextView)>::empty() =~~= out.deep_view());
    }
    Ok(out)
}

/// The declared context `key` names, the last declaration winning.
pub fn lookup_context_table<'a>(tbl: &'a Vec<(String, Context)>, key: &str) -> (r: Option<
    &'a Context,
>)
    ensures
        match r {
            Some(c) => lookup_context(tbl.deep_view(), key@) == Some(c.deep_view()),
            None => lookup_context(tbl.deep_view(), key@) is None,
        },
{
    let n = tbl.len();
    let mut i: usize = n;
    proof {
        assert(tbl.deep_view().take(n as int) =~~= tbl.deep_view());
    }
    while i > 0
        invariant
            0 <= i <= n,
            n == tbl@.len(),
            lookup_context(tbl.deep_view(), key@) == lookup_context(
                tbl.deep_view().take(i as int),
                key@,
            ),
        decreases i,
    {
        proof {
            assert(tbl.deep_view().take(i as int).last() == tbl@[i - 1].deep_view());
            assert(tbl.deep_view().take(i as int).drop_last() =~~= tbl.deep_view().take(i - 1));
        }
        if str_eq(tbl[i - 1].0.as_str(), key) {
            return Some(&tbl[i - 1].1);
        }
        i -= 1;
    }
    proof {
        assert(tbl.deep_view().take(0) =~~= Seq::<(Seq<char>, ContextView)>::empty());
    }
    None
}

/// The declared measure `key` names, the last declaration winning, copied
/// out.
pub fn lookup_measure_table(tbl: &Vec<(String, String)>, key: &str) -> (r: Option<String>)
    ensures
        r.deep_view() == lookup_measure(tbl.deep_view(), key@),
{
    let n = tbl.len();
    let mut i: usize = n;
    proof {
        assert(tbl.deep_view().take(n as int) =~~= tbl.deep_view());
    }
    while i > 0
        invariant
            0 <= i <= n,
            n == tbl@.len(),
            lookup_measure(tbl.deep_view(), key@) == lookup_measure(
                tbl.deep_view().take(i as int),
                key@,
            ),
        decreases i,
    {
        proof {
            assert(tbl.deep_view().take(i as int).last() == tbl@[i - 1].deep_view());
            assert(tbl.deep_view().take(i as int).drop_last() =~~= tbl.deep_view().take(i - 1));
        }
        if str_eq(tbl[i - 1].0.as_str(), key) {
            return Some(tbl[i - 1].1.clone());
        }
        i -= 1;
    }
    proof {
        assert(tbl.deep_view().take(0) =~~= Seq::<(Seq<char>, Seq<char>)>::empty());
    }
    None
}

/// Joins the top-level elements against the dictionaries, as [`spec_facts`]
/// says: one fact per element whose `contextRef` resolves, in document
/// order; each fact owns its context.
pub fn extract_facts(
    root: &XmlNode,
    contexts: &Vec<(String, Context)>,
    units: &Vec<(String, String)>,
) -> (r: Vec<Fact>)
    ensures
        r.deep_view() == spec_facts(root.children@, 0, contexts.deep_view(), units.deep_view()),
{
    let mut out: Vec<Fact> = Vec::new();
    let n = root.children.len();
    let mut i: usize = 0;
    while i < n
        invariant
            0 <= i <= n,
            n == root.children@.len(),
            spec_facts(root.children@, 0, contexts.deep_view(), units.deep_view())
                == out.deep_view() + spec_facts(
                root.children@,
                i as int,
                contexts.deep_view(),
                units.deep_view(),
            ),
        decreases n - i,
    {
        let ghost s = root.children@;
        let c = &root.children[i];
        match find_attr(c, "contextRef") {
            Some(cref) => {
                match lookup_context_table(contexts, cref.as_str()) {
                    Some(ctx) => {
                        let ghost pre = out.deep_view();
                        let fact = Fact {
                            context: ctx.clone(),
                            concept: c.tag.clone(),
                            value: parse_value(text_or_default(c)),
                            decimals: find_attr(c, "decimals"),
                            unit: match find_attr(c, "unitRef") {
                                Some(u) => lookup_measure_table(units, u.as_str()),
                                None => None,
                            },
                        };
                        proof {
                            assert(fact.deep_view() == spec_fact(
                                s[i as int],
                                ctx.deep_view(),
                                units.deep_view(),
                            ));
                        }
                        out.push(fact);
                        proof {
                            assert(out.deep_view() =~~= pre.push(out@.last().deep_view()));
                            assert(pre + (seq![out@.last().deep_view()] + spec_facts(
                                s,
                                i + 1 as int,
                                contexts.deep_view(),
                                units.deep_view(),
                            )) =~~= out.deep_view() + spec_facts(
                                s,
                                i + 1 as int,
                                contexts.deep_view(),
                                units.deep_view(),
                            ));
                        }
                    },
                    None => {},
                }
            },
            None => {},
        }
        i += 1;
    }
    proof {
        assert(out.deep_view() + spec_facts(
            root.children@,
            n as int,
            contexts.deep_view(),
            units.deep_view(),
        ) =~~= out.deep_view());
    }
    out
}

/// Decodes an XBRL instance from its element tree, as [`spec_xbrl`] says.
pub fn xbrl_from_tree(root: &XmlNode) -> (r: Result<Document, ParseError>)
    ensures
        result_matches(r, spec_xbrl(*root)),
{
    let units = parse_units(root);
    let contexts = match parse_contexts(root) {
        Ok(t) => t,
        Err(e) => {
            return Err(e);
        },
    };
    let facts = extract_facts(root, &contexts, &units);
    Ok(Document { facts })
}

/// Exactly what [`parse_xbrl`] returns for `text`: the reader's outcome,
/// then the tree decode; text that is not well-formed XML is the
/// malformed-XML error carrying the reader's diagnostic.
pub open spec fn parse_xbrl_post(r: Result<Document, ParseError>, text: Seq<char>) -> bool {
    match xml_parse(text) {
        Ok(root) => result_matches(r, spec_xbrl(root)),
        Err(d) => r matches Err(ParseError::MalformedXml(m)) && m@ == d,
    }
}

/// Parses XBRL text: the reader's tree, then [`xbrl_from_tree`], as
/// [`parse_xbrl_post`] says.
pub fn parse_xbrl(xbrl: &str) -> (r: Result<Document, ParseError>)
    ensures
        parse_xbrl_post(r, xbrl@),
{
    match parse_tree(xbrl) {
        Ok(root) => xbrl_from_tree(&root),
        Err(msg) => Err(ParseError::MalformedXml(msg)),
    }
}

/// The top-level elements at or after `i` whose `contextRef` resolves in
/// `ctxs`, in document order.
pub open spec fn resolving(
    s: Seq<XmlNode>,
    i: int,
    ctxs: Seq<(Seq<char>, ContextView)>,
) -> Seq<XmlNode>
    decreases s.len() - i,
{
    if i < 0 || i >= s.len() {
        Seq::empty()
    } else {
        let rest = resolving(s, i + 1, ctxs);
        match attr_of(s[i], "contextRef"@) {
            Some(cref) => if lookup_context(ctxs, cref) is Some {
                seq![s[i]] + rest
            } else {
                rest
            },
            None => rest,
        }
    }
}

/// The fact list holds exactly one fact for each top-level element whose
/// `contextRef` resolves among the declared contexts, in document order: the
/// j-th fact decodes the j-th such element against its context.
pub proof fn lemma_facts_are_resolving_elements(
    s: Seq<XmlNode>,
    i: int,
    ctxs: Seq<(Seq<char>, ContextView)>,
    units: Seq<(Seq<char>, Seq<char>)>,
)
    ensures
        spec_facts(s, i, ctxs, units).len() == resolving(s, i, ctxs).len(),
        forall|j: int|
            0 <= j < resolving(s, i, ctxs).len() ==> #[trigger] spec_facts(s, i, ctxs, units)[j]
                == spec_fact(
                resolving(s, i, ctxs)[j],
                lookup_context(ctxs, attr_of(resolving(s, i, ctxs)[j], "contextRef"@)->Some_0)->Some_0,
                units,
            ),
    decreases s.len() - i,
{
    if i < 0 || i >= s.len() {
    } else {
        lemma_facts_are_resolving_elements(s, i + 1, ctxs, units);
        let facts = spec_facts(s, i, ctxs, units);
        let nodes = resolving(s, i, ctxs);
        let frest = spec_facts(s, i + 1, ctxs, units);
        let nrest = resolving(s, i + 1, ctxs);
        match attr_of(s[i], "contextRef"@) {
            Some(cref) => match lookup_context(ctxs, cref) {
                Some(ctx) => {
                    assert(facts == seq![spec_fact(s[i], ctx, units)] + frest);
                    assert(nodes == seq![s[i]] + nrest);
                    assert forall|j: int| 0 <= j < nodes.len() implies #[trigger] facts[j]
                        == spec_fact(
                        nodes[j],
                        lookup_context(ctxs, attr_of(nodes[j], "contextRef"@)->Some_0)->Some_0,
                        units,
                    ) by {
                        if j > 0 {
                            assert(nodes[j] == nrest[j - 1]);
                            assert(facts[j] == frest[j - 1]);
                        }
                    }
                },
                None => {},
            },
            None => {},
        }
    }
}

/// Whether a `context` declaration carries what the decoder requires of it:
/// an `id` attribute and the `entity` to `identifier` text chain.
pub open spec fn context_well_keyed(c: XmlNode) -> bool {
    &&& attr_of(c, "id"@) is Some
    &&& match child_of(c, "entity"@) {
        Some(ent) => child_text(ent, "identifier"@) is Some,
        None => false,
    }
}

proof fn lemma_contexts_ok_iff_well_keyed(s: Seq<XmlNode>, i: int)
    requires
        0 <= i,
    ensures
        spec_contexts(s, i) is Ok <==> (forall|j: int|
            i <= j < s.len() && (#[trigger] s[j]).tag@ == "context"@ ==> context_well_keyed(s[j])),
    decreases s.len() - i,
{
    if i >= s.len() {
    } else {
        lemma_contexts_ok_iff_well_keyed(s, i + 1);
        let rest = spec_contexts(s, i + 1);
        let all_from_i = forall|j: int|
            i <= j < s.len() && (#[trigger] s[j]).tag@ == "context"@ ==> context_well_keyed(s[j]);
        if s[i].tag@ == "context"@ {
            assert(spec_context(s[i]) is Ok <==> context_well_keyed(s[i]));
            if all_from_i {
                assert(context_well_keyed(s[i]));
                assert(rest is Ok);
                assert(spec_contexts(s, i) is Ok);
            }
            if spec_contexts(s, i) is Ok {
                assert(spec_context(s[i]) is Ok);
                assert(rest is Ok);
                assert forall|j: int|
                    i <= j < s.len() && (#[trigger] s[j]).tag@
                        == "context"@ implies context_well_keyed(s[j]) by {};
            }
        } else {
            assert(spec_contexts(s, i) == rest);
            if all_from_i {
                assert(rest is Ok);
            }
            if spec_contexts(s, i) is Ok {
                assert forall|j: int|
                    i <= j < s.len() && (#[trigger] s[j]).tag@
                        == "context"@ implies context_well_keyed(s[j]) by {};
            }
        }
    }
}

/// The decoder fails on exactly two kinds of input: text that is not
/// well-formed XML, and a well-formed document in which some declared
/// context lacks its `id` attribute or its `entity` to `identifier` chain.
/// Everything else decodes: absent periods, absent dimension names, absent
/// units and unresolvable references all degrade without error.
pub proof fn lemma_xbrl_fails_only_on_context_keys(root: XmlNode)
    ensures
        spec_xbrl(root) is Ok <==> (forall|j: int|
            0 <= j < root.children@.len() && (#[trigger] root.children@[j]).tag@ == "context"@
                ==> context_well_keyed(root.children@[j])),
{
    lemma_contexts_ok_iff_well_keyed(root.children@, 0);
}

/// For a document that decodes, the fact list is exactly as long as the
/// list of top-level elements whose `contextRef` resolves among the declared
/// contexts.
pub proof fn lemma_xbrl_fact_count(root: XmlNode)
    requires
        spec_xbrl(root) is Ok,
    ensures
        (spec_xbrl(root)->Ok_0).facts.len() == resolving(
            root.children@,
            0,
            spec_contexts(root.children@, 0)->Ok_0,
        ).len(),
{
    lemma_facts_are_resolving_elements(
        root.children@,
        0,
        spec_contexts(root.children@, 0)->Ok_0,
        unit_entries(root.children@, 0),
    );
}

/// Parsing is a function of the text alone: two results of [`parse_xbrl`]
/// on equal text are structurally equal — variant, facts, error and
/// diagnostic alike. No global state exists for a call to read or write.
pub proof fn lemma_parse_xbrl_deterministic(
    r1: Result<Document, ParseError>,
    r2: Result<Document, ParseError>,
    text: Seq<char>,
)
    requires
        parse_xbrl_post(r1, text),
        parse_xbrl_post(r2, text),
    ensures
        match (r1, r2) {
            (Ok(a), Ok(b)) => a.deep_view() == b.deep_view(),
            (Err(a), Err(b)) => a.deep_view() == b.deep_view(),
            _ => false,
        },
{
}

} // verus!
