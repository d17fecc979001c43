//! Hierarchical, append-only writer for the query wire format.
//!
//! Every parameter is rendered as `\n&{name}={value}` and appended to one
//! shared output buffer, in call order.  Names are built by `.`-joining path
//! segments; map and list entries add their index (1-based) and, unless the
//! collection is flattened, a wrapper segment (`entry` / `member`).  Every
//! value-producing operation consumes its writer, so a given name position
//! can be written at most once.

use vstd::prelude::*;
use vstd::string::StringExecFns;

use crate::encode::dec_str;
use crate::encode::dec_str_signed;
use crate::encode::encoded;
use crate::encode::i64_to_dec;
use crate::encode::u64_to_dec;
use crate::encode::url_encode;
use crate::encode::usize_to_dec;

verus! {

/// `\n&{name}=`: what precedes a parameter's value in the output.
pub open spec fn param_prefix(name: Seq<char>) -> Seq<char> {
    "\n&"@ + name + "="@
}

/// One whole parameter, `\n&{name}={value}`.
pub open spec fn param(name: Seq<char>, value: Seq<char>) -> Seq<char> {
    param_prefix(name) + value
}

/// The opening pair of every request: `Action={a}\n&Version={v}`, both
/// percent-encoded, with no leading `\n&`.
pub open spec fn query_header(action: Seq<char>, version: Seq<char>) -> Seq<char> {
    "Action="@ + encoded(action) + "\n&Version="@ + encoded(version)
}

/// The path of a nested field: the parent path, a dot, the field name.
pub open spec fn child_path(path: Seq<char>, name: Seq<char>) -> Seq<char> {
    path + "."@ + name
}

/// Wire form of a boolean value.
pub open spec fn bool_repr(value: bool) -> Seq<char> {
    if value {
        "true"@
    } else {
        "false"@
    }
}

/// The wrapper segment map entries carry in their names: omitted when the
/// map is flattened.
pub open spec fn entry_segment(flatten: bool) -> Seq<char> {
    if flatten {
        Seq::<char>::empty()
    } else {
        ".entry"@
    }
}

/// Name under which the key of map entry `n` is written.
pub open spec fn map_key_name(path: Seq<char>, flatten: bool, n: nat) -> Seq<char> {
    path + entry_segment(flatten) + "."@ + dec_str(n) + ".key"@
}

/// Name under which the value of map entry `n` is written.
pub open spec fn map_value_name(path: Seq<char>, flatten: bool, n: nat) -> Seq<char> {
    path + entry_segment(flatten) + "."@ + dec_str(n) + ".value"@
}

/// Name under which list element `n` is written.  Flattening takes priority
/// over a member-name override; without either, the wrapper is `member`.
pub open spec fn list_item_name(
    path: Seq<char>,
    flatten: bool,
    member_override: Option<Seq<char>>,
    n: nat,
) -> Seq<char> {
    if flatten {
        path + "."@ + dec_str(n)
    } else {
        match member_override {
            Some(name) => path + "."@ + name + "."@ + dec_str(n),
            None => path + ".member."@ + dec_str(n),
        }
    }
}

/// A numeric value in its wire-ready form.  Floating-point values cannot be
/// carried here, so a float arrives already classified: either its shortest
/// round-trip decimal rendering, or the marker for NaN and the infinities,
/// which the protocol writes as an empty value.
pub enum FloatValue {
    Finite(String),
    NonFinite,
}

/// A number to be written: an unsigned integer, a signed integer, or a
/// classified float.
pub enum Number {
    PosInt(u64),
    NegInt(i64),
    Float(FloatValue),
}

/// Wire form of a number.
pub open spec fn number_repr(value: Number) -> Seq<char> {
    match value {
        Number::PosInt(v) => encoded(dec_str(v as nat)),
        Number::NegInt(v) => encoded(dec_str_signed(v as int)),
        Number::Float(f) => match f {
            FloatValue::Finite(s) => encoded(s@),
            FloatValue::NonFinite => Seq::<char>::empty(),
        },
    }
}

/// Entry point for one outbound request.  Writing the `Action`/`Version`
/// header happens on construction; afterwards the writer hands out one value
/// writer per top-level field.  The output buffer stays with the caller and
/// is passed to each operation that appends to it.
pub struct QueryWriter {}

impl QueryWriter {
    /// Appends `Action={action}\n&Version={version}`, both percent-encoded.
    pub fn new(output: &mut String, action: &str, version: &str) -> (writer: QueryWriter)
        ensures
            final(output)@ == old(output)@ + query_header(action@, version@),
    {
        output.append("Action=");
        let encoded_action = url_encode(action);
        output.append(encoded_action.as_str());
        output.append("\n&Version=");
        let encoded_version = url_encode(version);
        output.append(encoded_version.as_str());
        proof {
            assert(output@ =~= old(output)@ + query_header(action@, version@));
        }
        QueryWriter {}
    }

    /// A value writer for the top-level field `prefix`.  The query writer
    /// stays usable, so sibling fields can follow.
    pub fn prefix(&self, prefix: &str) -> (writer: QueryValueWriter)
        ensures
            writer.path() == prefix@,
    {
        QueryValueWriter::new(prefix.to_owned())
    }

    /// Completion marker: consumes the writer and writes nothing.
    pub fn finish(self) {
    }
}

/// Writes the two halves of one map entry: the key eagerly, the value
/// through the returned value writer.
pub struct QueryMapWriter {
    path: String,
    flatten: bool,
    next_index: usize,
}

impl QueryMapWriter {
    /// The path the map writes its entries under.
    pub closed spec fn path(self) -> Seq<char> {
        self.path@
    }

    /// Whether the `entry` wrapper segment is omitted.
    pub closed spec fn is_flat(self) -> bool {
        self.flatten
    }

    /// The 1-based index the next entry will get.
    pub closed spec fn index(self) -> nat {
        self.next_index as nat
    }

    fn new(path: String, flatten: bool) -> (writer: QueryMapWriter)
        ensures
            writer.path() == path@,
            writer.is_flat() == flatten,
            writer.index() == 1,
    {
        QueryMapWriter { path, flatten, next_index: 1 }
    }

    /// Appends `\n&{path}{seg}.{n}.key={key}` with the key percent-encoded,
    /// counts the entry, and returns a value writer for
    /// `{path}{seg}.{n}.value` (which the caller may use later, or never).
    pub fn entry(&mut self, output: &mut String, key: &str) -> (value_writer: QueryValueWriter)
        requires
            old(self).index() < usize::MAX,
        ensures
            final(output)@ == old(output)@ + param(
                map_key_name(old(self).path(), old(self).is_flat(), old(self).index()),
                encoded(key@),
            ),
            value_writer.path() == map_value_name(
                old(self).path(),
                old(self).is_flat(),
                old(self).index(),
            ),
            final(self).path() == old(self).path(),
            final(self).is_flat() == old(self).is_flat(),
            final(self).index() == old(self).index() + 1,
    {
        let segment: &str = if self.flatten {
            ""
        } else {
            ".entry"
        };
        let index_str = usize_to_dec(self.next_index);
        let encoded_key = url_encode(key);
        output.append("\n&");
        output.append(self.path.as_str());
        output.append(segment);
        output.append(".");
        output.append(index_str.as_str());
        output.append(".key");
        output.append("=");
        output.append(encoded_key.as_str());
        let mut value_name = self.path.clone();
        value_name.append(segment);
        value_name.append(".");
        value_name.append(index_str.as_str());
        value_name.append(".value");
        self.next_index = self.next_index + 1;
        proof {
            if old(self).is_flat() {
                reveal_strlit("");
                assert(segment@ =~= entry_segment(old(self).is_flat()));
            }
            assert(output@ =~= old(output)@ + param(
                map_key_name(old(self).path(), old(self).is_flat(), old(self).index()),
                encoded(key@),
            ));
            assert(value_name@ =~= map_value_name(
                old(self).path(),
                old(self).is_flat(),
                old(self).index(),
            ));
        }
        QueryValueWriter::new(value_name)
    }

    /// Completion marker: consumes the writer and writes nothing.
    pub fn finish(self) {
    }
}

/// Hands out one value writer per list element, under the element's
/// computed name.  Nothing is written until a value is.
pub struct QueryListWriter {
    path: String,
    flatten: bool,
    member_override: Option<String>,
    next_index: usize,
}

impl QueryListWriter {
    /// The path the list writes its elements under.
    pub closed spec fn path(self) -> Seq<char> {
        self.path@
    }

    /// Whether the wrapper segment is omitted.
    pub closed spec fn is_flat(self) -> bool {
        self.flatten
    }

    /// The caller-chosen replacement for the `member` wrapper, if any.
    pub closed spec fn override_view(self) -> Option<Seq<char>> {
        match self.member_override {
            Some(name) => Some(name@),
            None => None,
        }
    }

    /// The 1-based index the next element will get.
    pub closed spec fn index(self) -> nat {
        self.next_index as nat
    }

    fn new(path: String, flatten: bool, member_override: Option<String>) -> (writer:
        QueryListWriter)
        ensures
            writer.path() == path@,
            writer.is_flat() == flatten,
            writer.override_view() == match member_override {
                Some(name) => Some(name@),
                None => None::<Seq<char>>,
            },
            writer.index() == 1,
    {
        QueryListWriter { path, flatten, member_override, next_index: 1 }
    }

    /// Counts the element and returns a value writer for its computed name:
    /// `{path}.{n}` when flattened, `{path}.{override}.{n}` under an
    /// override, `{path}.member.{n}` otherwise.
    pub fn entry(&mut self) -> (value_writer: QueryValueWriter)
        requires
            old(self).index() < usize::MAX,
        ensures
            value_writer.path() == list_item_name(
                old(self).path(),
                old(self).is_flat(),
                old(self).override_view(),
                old(self).index(),
            ),
            final(self).path() == old(self).path(),
            final(self).is_flat() == old(self).is_flat(),
            final(self).override_view() == old(self).override_view(),
            final(self).index() == old(self).index() + 1,
    {
        let index_str = usize_to_dec(self.next_index);
        let mut value_name = self.path.clone();
        if self.flatten {
            value_name.append(".");
            value_name.append(index_str.as_str());
        } else {
            match &self.member_override {
                Some(name) => {
                    value_name.append(".");
                    value_name.append(name.as_str());
                    value_name.append(".");
                    value_name.append(index_str.as_str());
                },
                None => {
                    value_name.append(".member.");
                    value_name.append(index_str.as_str());
                },
            }
        }
        self.next_index = self.next_index + 1;
        proof {
            assert(value_name@ =~= list_item_name(
                old(self).path(),
                old(self).is_flat(),
                old(self).override_view(),
                old(self).index(),
            ));
        }
        QueryValueWriter::new(value_name)
    }

    /// Completion marker: consumes the writer and writes nothing.
    pub fn finish(self) {
    }
}

/// Write access to one name position.  Every value-producing method takes
/// the writer by value, so the position can be written at most once.
pub struct QueryValueWriter {
    path: String,
}

impl QueryValueWriter {
    /// The name this writer will write under.
    pub closed spec fn path(self) -> Seq<char> {
        self.path@
    }

    /// A writer scoped to the given name.
    pub fn new(path: String) -> (writer: QueryValueWriter)
        ensures
            writer.path() == path@,
    {
        QueryValueWriter { path }
    }

    /// A child writer for the nested field `prefix`, under
    /// `{self.path}.{prefix}`.  This writer stays usable for siblings.
    pub fn prefix(&self, prefix: &str) -> (writer: QueryValueWriter)
        ensures
            writer.path() == child_path(self.path(), prefix@),
    {
        let mut path = self.path.clone();
        path.append(".");
        path.append(prefix);
        proof {
            assert(path@ =~= child_path(self.path(), prefix@));
        }
        QueryValueWriter::new(path)
    }

    /// Appends `\n&{path}=true` or `\n&{path}=false`.
    pub fn boolean(self, output: &mut String, value: bool)
        ensures
            final(output)@ == old(output)@ + param(self.path(), bool_repr(value)),
    {
        self.write_param_name(output);
        if value {
            output.append("true");
        } else {
            output.append("false");
        }
        proof {
            assert(output@ =~= old(output)@ + param(self.path(), bool_repr(value)));
        }
    }

    /// Appends `\n&{path}={value}` with the value percent-encoded.
    pub fn string(self, output: &mut String, value: &str)
        ensures
            final(output)@ == old(output)@ + param(self.path(), encoded(value@)),
    {
        let encoded_value = url_encode(value);
        self.write_param_name(output);
        output.append(encoded_value.as_str());
        proof {
            assert(output@ =~= old(output)@ + param(self.path(), encoded(value@)));
        }
    }

    /// Appends the number as `\n&{path}={decimal}`: exact decimal digits for
    /// the integer variants, the prepared rendering for a finite float, and
    /// an empty value for NaN and the infinities.
    pub fn number(self, output: &mut String, value: Number)
        ensures
            final(output)@ == old(output)@ + param(self.path(), number_repr(value)),
    {
        match value {
            Number::PosInt(v) => {
                let digits = u64_to_dec(v);
                self.string(output, digits.as_str());
            },
            Number::NegInt(v) => {
                let digits = i64_to_dec(v);
                self.string(output, digits.as_str());
            },
            Number::Float(f) => match f {
                FloatValue::Finite(s) => {
                    self.string(output, s.as_str());
                },
                FloatValue::NonFinite => {
                    self.write_param_name(output);
                    proof {
                        assert(output@ =~= old(output)@ + param(
                            self.path(),
                            Seq::<char>::empty(),
                        ));
                    }
                },
            },
        }
    }

    /// Appends an already-formatted timestamp as `\n&{path}={value}`,
    /// percent-encoded.  Rendering an instant into epoch seconds, ISO-8601
    /// or an HTTP date belongs to an external formatter; this writer only
    /// places the result.
    pub fn instant(self, output: &mut String, formatted: &str)
        ensures
            final(output)@ == old(output)@ + param(self.path(), encoded(formatted@)),
    {
        self.string(output, formatted);
    }

    /// Consumes this writer and opens a map under its path.
    pub fn start_map(self, flat: bool) -> (writer: QueryMapWriter)
        ensures
            writer.path() == self.path(),
            writer.is_flat() == flat,
            writer.index() == 1,
    {
        QueryMapWriter::new(self.path, flat)
    }

    /// Consumes this writer and opens a list under its path.
    pub fn start_list(self, flat: bool, member_override: Option<String>) -> (writer:
        QueryListWriter)
        ensures
            writer.path() == self.path(),
            writer.is_flat() == flat,
            writer.override_view() == match member_override {
                Some(name) => Some(name@),
                None => None::<Seq<char>>,
            },
            writer.index() == 1,
    {
        QueryListWriter::new(self.path, flat, member_override)
    }

    /// Appends `\n&{path}=`, leaving the value to the caller.
    fn write_param_name(&self, output: &mut String)
        ensures
            final(output)@ == old(output)@ + param_prefix(self.path()),
    {
        output.append("\n&");
        output.append(self.path.as_str());
        output.append("=");
        proof {
            assert(output@ =~= old(output)@ + param_prefix(self.path()));
        }
    }
}

/// Nested `prefix` calls compose left-to-right: naming a field inside a
/// field joins the segments with dots, outermost first.
pub proof fn lemma_prefix_composition(path: Seq<char>, first: Seq<char>, second: Seq<char>)
    ensures
        child_path(child_path(path, first), second) == path + "."@ + first + "."@ + second,
{
    assert(child_path(child_path(path, first), second) =~= path + "."@ + first + "."@ + second);
}

/// The names a map entry writes under, spelled out: entry `n` produces a
/// `.entry.{n}.key` / `.entry.{n}.value` pair, and flattening only omits the
/// `.entry` segment.
pub proof fn lemma_map_entry_names(path: Seq<char>, n: nat, encoded_key: Seq<char>)
    ensures
        param(map_key_name(path, false, n), encoded_key) == "\n&"@ + path + ".entry."@ + dec_str(
            n,
        ) + ".key="@ + encoded_key,
        param(map_key_name(path, true, n), encoded_key) == "\n&"@ + path + "."@ + dec_str(n)
            + ".key="@ + encoded_key,
        map_value_name(path, false, n) == path + ".entry."@ + dec_str(n) + ".value"@,
        map_value_name(path, true, n) == path + "."@ + dec_str(n) + ".value"@,
{
    reveal_strlit(".");
    reveal_strlit("=");
    reveal_strlit(".entry");
    reveal_strlit(".entry.");
    reveal_strlit(".key");
    reveal_strlit(".key=");
    assert(param(map_key_name(path, false, n), encoded_key) =~= "\n&"@ + path + ".entry."@
        + dec_str(n) + ".key="@ + encoded_key);
    assert(param(map_key_name(path, true, n), encoded_key) =~= "\n&"@ + path + "."@ + dec_str(n)
        + ".key="@ + encoded_key);
    assert(map_value_name(path, false, n) =~= path + ".entry."@ + dec_str(n) + ".value"@);
    assert(map_value_name(path, true, n) =~= path + "."@ + dec_str(n) + ".value"@);
}

/// The name a list element writes under, in each mode; in particular, the
/// default wrapper behaves exactly like an override of `"member"`.
pub proof fn lemma_list_item_names(path: Seq<char>, member_name: Seq<char>, n: nat)
    ensures
        list_item_name(path, true, Some(member_name), n) == path + "."@ + dec_str(n),
        list_item_name(path, true, None, n) == path + "."@ + dec_str(n),
        list_item_name(path, false, Some(member_name), n) == path + "."@ + member_name + "."@
            + dec_str(n),
        list_item_name(path, false, None, n) == list_item_name(path, false, Some("member"@), n),
{
    reveal_strlit(".");
    reveal_strlit("member");
    reveal_strlit(".member.");
    assert(list_item_name(path, false, None, n) =~= list_item_name(
        path,
        false,
        Some("member"@),
        n,
    ));
}

} // verus!
