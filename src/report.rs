use vstd::prelude::*;

use crate::severity::{glyph, severity_emoji, Severity};
use crate::text::{decimal, decimal_string, join, join_strings, lemma_join_len, lines_of, total_len};

verus! {

/// An inbound alert event.
#[derive(Clone, Debug)]
pub struct RawAlert {
    pub code: u32,
    pub severity: Severity,
    pub message: String,
    pub member_id: String,
    pub service_id: String,
    pub health_check_id: String,
    /// Auxiliary payload; carried but not rendered into reports.
    pub data: String,
}

/// An append-only sequence of text segments, in delivery order.
pub struct Report {
    body: Vec<String>,
}

impl View for Report {
    type V = Seq<Seq<char>>;

    closed spec fn view(&self) -> Seq<Seq<char>> {
        lines_of(self.body@)
    }
}

pub open spec fn newline() -> Seq<char> {
    seq!['\n']
}

pub open spec fn markup_break() -> Seq<char> {
    seq!['<', 'b', 'r', '>']
}

/// Plain-text rendering of a segment sequence.
pub open spec fn plain_text(segs: Seq<Seq<char>>) -> Seq<char> {
    join(segs, newline())
}

/// Markup rendering of a segment sequence.
pub open spec fn markup_text(segs: Seq<Seq<char>>) -> Seq<char> {
    join(segs, markup_break())
}

/// What the audit log receives for a report: a start marker, each segment
/// in order, an end marker.
pub open spec fn audit_lines(segs: Seq<Seq<char>>) -> Seq<Seq<char>> {
    seq!["__START__"@] + segs + seq!["__END__"@]
}

pub open spec fn header_line(code: u32, service_id: Seq<char>, severity: Severity) -> Seq<char> {
    "🚨 <b>Alert ["@ + decimal(code as nat) + "] ― "@ + service_id + "</b> "@ + glyph(severity)
}

pub open spec fn message_line(message: Seq<char>) -> Seq<char> {
    "💬 "@ + message
}

pub open spec fn health_check_line(base_url: Seq<char>, id: Seq<char>) -> Seq<char> {
    "🩺 Health Check <a href=\""@ + base_url + "/healthCheck/"@ + id + "\">#"@ + id + "</a>"@
}

pub open spec fn member_line(member_id: Seq<char>) -> Seq<char> {
    "🦸 Member "@ + member_id
}

pub open spec fn divider_line() -> Seq<char> {
    "——"@
}

/// The segments of the report built from `a`, with health checks linked
/// under `base_url`. The auxiliary payload is not rendered.
pub open spec fn report_lines(a: RawAlert, base_url: Seq<char>) -> Seq<Seq<char>> {
    seq![
        header_line(a.code, a.service_id@, a.severity),
        Seq::empty(),
        message_line(a.message@),
        health_check_line(base_url, a.health_check_id@),
        member_line(a.member_id@),
        divider_line(),
        Seq::empty(),
    ]
}

impl Report {
    pub fn new() -> (r: Report)
        ensures
            r@ == Seq::<Seq<char>>::empty(),
    {
        let r = Report { body: Vec::new() };
        assert(r@ =~= Seq::<Seq<char>>::empty());
        r
    }

    pub fn add_raw_text(&mut self, t: String)
        ensures
            final(self)@ == old(self)@.push(t@),
    {
        self.body.push(t);
        assert(lines_of(self.body@) =~= lines_of(old(self).body@).push(t@));
    }

    pub fn add_break(&mut self)
        ensures
            final(self)@ == old(self)@.push(Seq::empty()),
    {
        self.add_raw_text(String::new());
    }

    /// Segments joined by line breaks.
    pub fn message(&self) -> (r: String)
        ensures
            r@ == plain_text(self@),
    {
        proof {
            reveal_strlit("\n");
        }
        assert("\n"@ =~= newline());
        join_strings(&self.body, "\n")
    }

    /// Segments joined by the markup line-break token.
    pub fn formatted_message(&self) -> (r: String)
        ensures
            r@ == markup_text(self@),
    {
        proof {
            reveal_strlit("<br>");
        }
        assert("<br>"@ =~= markup_break());
        join_strings(&self.body, "<br>")
    }

    /// Appends the audit lines of this report to `sink`.
    pub fn log(&self, sink: &mut Vec<String>)
        ensures
            lines_of(final(sink)@) == lines_of(old(sink)@) + audit_lines(self@),
    {
        let ghost start = lines_of(sink@);
        sink.push(String::from_str("__START__"));
        assert(lines_of(sink@) =~= start + seq!["__START__"@]);
        let mut i: usize = 0;
        while i < self.body.len()
            invariant
                i <= self.body@.len(),
                lines_of(sink@) == start + seq!["__START__"@] + self@.take(i as int),
            decreases self.body@.len() - i,
        {
            let ghost before = lines_of(sink@);
            sink.push(self.body[i].clone());
            assert(lines_of(sink@) =~= before.push(self@[i as int]));
            assert(self@.take(i + 1) =~= self@.take(i as int).push(self@[i as int]));
            i = i + 1;
        }
        let ghost before = lines_of(sink@);
        sink.push(String::from_str("__END__"));
        assert(lines_of(sink@) =~= before.push("__END__"@));
        assert(self@.take(i as int) =~= self@);
        assert(lines_of(sink@) =~= start + audit_lines(self@));
    }

    /// Builds the report of an alert, linking its health check under
    /// `base_url`, and appends the report's audit lines to `audit`.
    pub fn build(data: RawAlert, base_url: &str, audit: &mut Vec<String>) -> (r: Report)
        ensures
            r@ == report_lines(data, base_url@),
            lines_of(final(audit)@) == lines_of(old(audit)@) + audit_lines(r@),
    {
        let mut report = Report::new();
        report.add_raw_text(header(&data));
        report.add_break();
        let mut m = String::from_str("💬 ");
        m.append(data.message.as_str());
        report.add_raw_text(m);
        report.add_raw_text(health_check(base_url, &data.health_check_id));
        let mut member = String::from_str("🦸 Member ");
        member.append(data.member_id.as_str());
        report.add_raw_text(member);
        report.add_raw_text(String::from_str("——"));
        report.add_break();
        assert(report@ =~= report_lines(data, base_url@));
        report.log(audit);
        report
    }
}

/// The plain and markup renderings of a report join the very same segments
/// in the same order; only the joining token differs. Hence, for a report
/// with segments, the markup rendering is longer by exactly three characters
/// at each of the joints.
pub proof fn lemma_renderings_share_segments(r: &Report)
    ensures
        plain_text(r@) == join(r@, newline()),
        markup_text(r@) == join(r@, markup_break()),
        r@.len() > 0 ==> plain_text(r@).len() == total_len(r@) + (r@.len() - 1),
        r@.len() > 0 ==> markup_text(r@).len() == plain_text(r@).len() + 3 * (r@.len() - 1),
{
    if r@.len() > 0 {
        lemma_join_len(r@, newline());
        lemma_join_len(r@, markup_break());
        assert(newline().len() == 1);
        assert(markup_break().len() == 4);
        let k: int = r@.len() - 1;
        assert(k * 4 == k + 3 * k) by (nonlinear_arith);
        assert(k * 1 == k) by (nonlinear_arith);
    }
}

/// Building a report depends on nothing but the alert's rendered fields and
/// the base URL: equal inputs give identical segments (the auxiliary payload
/// may even differ).
pub proof fn lemma_build_deterministic(a: RawAlert, b: RawAlert, base_url: Seq<char>)
    requires
        a.code == b.code,
        a.severity == b.severity,
        a.message@ == b.message@,
        a.member_id@ == b.member_id@,
        a.service_id@ == b.service_id@,
        a.health_check_id@ == b.health_check_id@,
    ensures
        report_lines(a, base_url) == report_lines(b, base_url),
{
}

/// The audit lines of a report are exactly one start marker, then each of
/// its segments in order, then one end marker; a built report always has
/// seven segments, hence nine audit lines.
pub proof fn lemma_audit_shape(segs: Seq<Seq<char>>)
    ensures
        audit_lines(segs).len() == segs.len() + 2,
        audit_lines(segs)[0] == "__START__"@,
        audit_lines(segs)[segs.len() as int + 1] == "__END__"@,
        forall|i: int| 0 <= i < segs.len() ==> #[trigger] audit_lines(segs)[i + 1] == segs[i],
{
}

/// Every report built from an alert has seven segments, its header first.
pub proof fn lemma_report_layout(a: RawAlert, base_url: Seq<char>)
    ensures
        report_lines(a, base_url).len() == 7,
        report_lines(a, base_url)[0] == header_line(a.code, a.service_id@, a.severity),
        report_lines(a, base_url)[3] == health_check_line(base_url, a.health_check_id@),
        audit_lines(report_lines(a, base_url)).len() == 9,
{
}

fn header(data: &RawAlert) -> (r: String)
    ensures
        r@ == header_line(data.code, data.service_id@, data.severity),
{
    let mut h = String::from_str("🚨 <b>Alert [");
    let code = decimal_string(data.code);
    h.append(code.as_str());
    h.append("] ― ");
    h.append(data.service_id.as_str());
    h.append("</b> ");
    let g = severity_emoji(data.severity);
    h.append(g.as_str());
    h
}

fn health_check(base_url: &str, id: &String) -> (r: String)
    ensures
        r@ == health_check_line(base_url@, id@),
{
    let mut h = String::from_str("🩺 Health Check <a href=\"");
    h.append(base_url);
    h.append("/healthCheck/");
    h.append(id.as_str());
    h.append("\">#");
    h.append(id.as_str());
    h.append("</a>");
    h
}

} // verus!
