//! The renderings of an error: the human-readable line, the machine
//! string and the JSON object.

use vstd::prelude::*;
use vstd::string::StringExecFns;
use crate::arena::{pairs_view, ContextArena};
use crate::error::{Error, ErrorView};
use crate::text::{escape, lemma_unescape_escape, unescape, write_escaped};

verus! {

/// The pairs in order, each as key, `between`, value, with `apart`
/// between two pairs.
pub open spec fn joined(
    pairs: Seq<(Seq<char>, Seq<char>)>,
    between: Seq<char>,
    apart: Seq<char>,
) -> Seq<char>
    decreases pairs.len(),
{
    if pairs.len() == 0 {
        Seq::empty()
    } else if pairs.len() == 1 {
        pairs[0].0 + between + pairs[0].1
    } else {
        joined(pairs.drop_last(), between, apart) + apart + pairs.last().0 + between
            + pairs.last().1
    }
}

/// The pairs with keys and values escaped for JSON.
pub open spec fn escaped_pairs(pairs: Seq<(Seq<char>, Seq<char>)>) -> Seq<(Seq<char>, Seq<char>)> {
    Seq::new(pairs.len(), |i: int| (escape(pairs[i].0), escape(pairs[i].1)))
}

/// The operation part of the human-readable line: nothing without a label.
pub open spec fn display_operation(operation: Option<Seq<char>>) -> Seq<char> {
    match operation {
        Some(op) => " (operation: "@ + op + ")"@,
        None => Seq::empty(),
    }
}

/// The context part of the human-readable line: nothing without pairs.
pub open spec fn display_context(pairs: Seq<(Seq<char>, Seq<char>)>) -> Seq<char> {
    if pairs.len() == 0 {
        Seq::empty()
    } else {
        " ["@ + joined(pairs, ": "@, ", "@) + "]"@
    }
}

/// The human-readable line: the message, then the operation in round
/// brackets if one is set, then the context in square brackets if there
/// is any.
pub open spec fn display_text(
    message: Seq<char>,
    operation: Option<Seq<char>>,
    pairs: Seq<(Seq<char>, Seq<char>)>,
) -> Seq<char> {
    message + display_operation(operation) + display_context(pairs)
}

/// The part of the machine string that is always there.
pub open spec fn machine_head(e: ErrorView) -> Seq<char> {
    "kind="@ + e.kind.machine_name() + ";status="@ + e.status.name() + ";message="@ + e.message
}

/// The operation segment of the machine string: nothing without a label.
pub open spec fn machine_operation(operation: Option<Seq<char>>) -> Seq<char> {
    match operation {
        Some(op) => ";operation="@ + op,
        None => Seq::empty(),
    }
}

/// The context segment of the machine string: nothing without pairs.
pub open spec fn machine_context(pairs: Seq<(Seq<char>, Seq<char>)>) -> Seq<char> {
    if pairs.len() == 0 {
        Seq::empty()
    } else {
        ";context=["@ + joined(pairs, "="@, ","@) + "]"@
    }
}

/// The machine string: the fields in fixed order and without escaping.
pub open spec fn machine_text(e: ErrorView, pairs: Seq<(Seq<char>, Seq<char>)>) -> Seq<char> {
    machine_head(e) + machine_operation(e.operation) + machine_context(pairs)
}

/// The members of the JSON object that are always there.
pub open spec fn json_head(e: ErrorView) -> Seq<char> {
    "{\"kind\":\""@ + e.kind.machine_name() + "\",\"status\":\""@ + e.status.name()
        + "\",\"message\":\""@ + escape(e.message) + "\""@
}

/// The operation member of the JSON object: nothing without a label,
/// else the label, escaped like every other string value.
pub open spec fn json_operation(operation: Option<Seq<char>>) -> Seq<char> {
    match operation {
        Some(op) => ",\"operation\":\""@ + escape(op) + "\""@,
        None => Seq::empty(),
    }
}

/// The context member of the JSON object: nothing without pairs, else an
/// object with one member for each pair, keys and values escaped.
pub open spec fn json_context(pairs: Seq<(Seq<char>, Seq<char>)>) -> Seq<char> {
    if pairs.len() == 0 {
        Seq::empty()
    } else {
        ",\"context\":{\""@ + joined(escaped_pairs(pairs), "\":\""@, "\",\""@) + "\"}"@
    }
}

/// The JSON object of an error: the members `kind`, `status` and
/// `message`, then `operation` if a label is set, then `context` if there
/// are pairs. Every string value is escaped.
pub open spec fn json_text(e: ErrorView, pairs: Seq<(Seq<char>, Seq<char>)>) -> Seq<char> {
    json_head(e) + json_operation(e.operation) + json_context(pairs) + "}"@
}

/// The machine string starts with the kind, status and message fields,
/// and holds nothing behind them but the operation segment, which is
/// there exactly if a label is set, and the context segment, which is
/// there exactly if there are pairs.
pub proof fn lemma_machine_text_shape(e: ErrorView, pairs: Seq<(Seq<char>, Seq<char>)>)
    ensures
        machine_head(e).is_prefix_of(machine_text(e, pairs)),
        machine_text(e, pairs).len() == machine_head(e).len() + machine_operation(
            e.operation,
        ).len() + machine_context(pairs).len(),
        machine_operation(e.operation).len() > 0 <==> e.operation is Some,
        machine_context(pairs).len() > 0 <==> pairs.len() > 0,
        e.operation is Some ==> ";operation="@.is_prefix_of(machine_operation(e.operation)),
        pairs.len() > 0 ==> ";context=["@.is_prefix_of(machine_context(pairs)),
{
    reveal_strlit(";operation=");
    reveal_strlit(";context=[");
}

/// Every string value of the JSON object is read back as it was given:
/// the message, the operation label, and each key and value of the
/// context stand in the object in their escaped form, and un-escaping
/// that form yields the text again.
pub proof fn lemma_json_values_read_back(e: ErrorView, pairs: Seq<(Seq<char>, Seq<char>)>)
    ensures
        unescape(escape(e.message)) == e.message,
        e.operation matches Some(op) ==> unescape(escape(op)) == op,
        forall|i: int|
            0 <= i < pairs.len() ==> unescape((#[trigger] escaped_pairs(pairs)[i]).0) == pairs[i].0
                && unescape(escaped_pairs(pairs)[i].1) == pairs[i].1,
{
    lemma_unescape_escape(e.message);
    match e.operation {
        Some(op) => {
            lemma_unescape_escape(op);
        },
        None => {},
    }
    assert forall|i: int| 0 <= i < pairs.len() implies unescape(
        (#[trigger] escaped_pairs(pairs)[i]).0,
    ) == pairs[i].0 && unescape(escaped_pairs(pairs)[i].1) == pairs[i].1 by {
        lemma_unescape_escape(pairs[i].0);
        lemma_unescape_escape(pairs[i].1);
    }
}

/// Appends the pairs, each as key, `between`, value, with `apart` between
/// two pairs; keys and values escaped for JSON if `escaping` is set.
fn write_joined(
    buf: &mut String,
    pairs: &Vec<(String, String)>,
    between: &str,
    apart: &str,
    escaping: bool,
)
    ensures
        final(buf)@ == old(buf)@ + joined(
            if escaping {
                escaped_pairs(pairs_view(pairs@))
            } else {
                pairs_view(pairs@)
            },
            between@,
            apart@,
        ),
{
    let ghost start = buf@;
    let ghost all = if escaping {
        escaped_pairs(pairs_view(pairs@))
    } else {
        pairs_view(pairs@)
    };
    let mut i: usize = 0;
    while i < pairs.len()
        invariant
            i <= pairs@.len(),
            all.len() == pairs@.len(),
            all == if escaping {
                escaped_pairs(pairs_view(pairs@))
            } else {
                pairs_view(pairs@)
            },
            buf@ == start + joined(all.take(i as int), between@, apart@),
        decreases pairs@.len() - i,
    {
        let ghost done = all.take(i as int);
        let ghost next = all.take(i as int + 1);
        let pair = &pairs[i];
        if i > 0 {
            buf.append(apart);
        }
        if escaping {
            write_escaped(buf, pair.0.as_str());
            buf.append(between);
            write_escaped(buf, pair.1.as_str());
        } else {
            buf.append(pair.0.as_str());
            buf.append(between);
            buf.append(pair.1.as_str());
        }
        assert(next.drop_last() =~= done);
        i += 1;
    }
    assert(all.take(i as int) =~= all);
}

/// The human-readable line for a message, an operation label and context
/// pairs.
pub fn render_display(
    message: &str,
    operation: Option<&'static str>,
    pairs: &Vec<(String, String)>,
) -> (res: String)
    ensures
        res@ == display_text(
            message@,
            match operation {
                Some(op) => Some(op@),
                None => None,
            },
            pairs_view(pairs@),
        ),
{
    let mut out = String::from_str(message);
    match operation {
        Some(op) => {
            out.append(" (operation: ");
            out.append(op);
            out.append(")");
        },
        None => {},
    }
    if pairs.len() > 0 {
        out.append(" [");
        write_joined(&mut out, pairs, ": ", ", ", false);
        out.append("]");
    }
    out
}

impl Error {
    /// The human-readable line of the error, its context read through
    /// `arena`.
    pub fn to_string(&self, arena: &ContextArena) -> (res: String)
        ensures
            res@ == display_text(self@.message, self@.operation, self.context_pairs(*arena)),
    {
        let pairs = self.context(arena);
        render_display(self.message(), self.operation(), &pairs)
    }

    /// The machine-readable string of the error, its context read through
    /// `arena`. Nothing is escaped: a message that holds the delimiters is
    /// written as it is.
    pub fn to_machine_string(&self, arena: &ContextArena) -> (res: String)
        ensures
            res@ == machine_text(self@, self.context_pairs(*arena)),
    {
        let pairs = self.context(arena);
        let mut out = String::from_str("kind=");
        out.append(self.kind().to_machine_string().as_str());
        out.append(";status=");
        out.append(self.status().to_machine_string().as_str());
        out.append(";message=");
        out.append(self.message());
        match self.operation() {
            Some(op) => {
                out.append(";operation=");
                out.append(op);
            },
            None => {},
        }
        if pairs.len() > 0 {
            out.append(";context=[");
            write_joined(&mut out, &pairs, "=", ",", false);
            out.append("]");
        }
        out
    }

    /// The JSON object of the error, its context read through `arena`.
    pub fn to_json(&self, arena: &ContextArena) -> (res: String)
        ensures
            res@ == json_text(self@, self.context_pairs(*arena)),
    {
        let mut out = String::new();
        self.write_json(arena, &mut out);
        out
    }

    /// Appends the JSON object of the error to `buf`, its context read
    /// through `arena`.
    pub fn write_json(&self, arena: &ContextArena, buf: &mut String)
        ensures
            final(buf)@ == old(buf)@ + json_text(self@, self.context_pairs(*arena)),
    {
        let ghost start = buf@;
        let pairs = self.context(arena);
        buf.append("{\"kind\":\"");
        buf.append(self.kind().to_machine_string().as_str());
        buf.append("\",\"status\":\"");
        buf.append(self.status().to_machine_string().as_str());
        buf.append("\",\"message\":\"");
        write_escaped(buf, self.message());
        buf.append("\"");
        match self.operation() {
            Some(op) => {
                buf.append(",\"operation\":\"");
                write_escaped(buf, op);
                buf.append("\"");
            },
            None => {},
        }
        let ghost head = buf@;
        assert(head =~= start + json_head(self@) + json_operation(self@.operation));
        if pairs.len() > 0 {
            buf.append(",\"context\":{\"");
            write_joined(buf, &pairs, "\":\"", "\",\"", true);
            buf.append("\"}");
        }
        buf.append("}");
    }
}

} // verus!
