//! The editor-settings artifact: a JSON object holding an output-directory
//! field and an ordered list of tool records, plus any number of unknown
//! top-level fields that must survive a read-modify-write cycle unchanged.
//!
//! The document shape is stated by [`settings_ok`] over the names of the
//! trusted JSON surface, so decoding succeeds exactly on well-formed
//! templates and every decoded field is a function of the document bytes.
//! The rewrite wires the new project into the settings: the output
//! directory is pointed at the project's output subdirectory, and the
//! argument after the first path-flag token (`-r`) in the first tool record
//! is pointed at the project's build-recipe file. A template in which that
//! token never occurs is malformed and rejected, never silently skipped.

use crate::error::NoteError;
use crate::json;
use crate::text::{bytes_eq, bytes_of, copy_bytes};
use vstd::prelude::*;
use vstd::string::StringSliceAdditionalSpecFns;
use vstd::utf8::{is_ascii_chars, is_ascii_chars_encode_utf8, valid_utf8};

verus! {

/// One tool record of the editor settings.
#[derive(Debug)]
pub struct LatexTool {
    pub name: Vec<u8>,
    pub command: Vec<u8>,
    pub args: Vec<Vec<u8>>,
    pub env: Vec<(Vec<u8>, Vec<u8>)>,
}

impl LatexTool {
    /// Environment keys came from JSON object keys, so each is valid UTF-8.
    pub open spec fn wf(&self) -> bool {
        forall|k: int| 0 <= k < self.env@.len() ==> valid_utf8(#[trigger] self.env@[k].0@)
    }
}

/// The decoded editor-settings artifact. Unknown top-level fields are kept
/// verbatim in `other_fields` and written back on serialization.
#[derive(Debug)]
pub struct EditorSettings {
    pub out_dir: Vec<u8>,
    pub tools: Vec<LatexTool>,
    pub other_fields: serde_json::Map<String, serde_json::Value>,
}

impl EditorSettings {
    /// Every tool record is well-formed.
    pub open spec fn wf(&self) -> bool {
        forall|t: int| 0 <= t < self.tools@.len() ==> (#[trigger] self.tools@[t]).wf()
    }
}

/// The key of the output-directory field.
pub open spec fn out_dir_key() -> Seq<u8> {
    "latex-workshop.latex.outDir".spec_bytes()
}

/// The key of the tool-list field.
pub open spec fn tools_key() -> Seq<u8> {
    "latex-workshop.latex.tools".spec_bytes()
}

/// The keys of the fields of one tool record.
pub open spec fn name_key() -> Seq<u8> {
    "name".spec_bytes()
}

pub open spec fn command_key() -> Seq<u8> {
    "command".spec_bytes()
}

pub open spec fn args_key() -> Seq<u8> {
    "args".spec_bytes()
}

pub open spec fn env_key() -> Seq<u8> {
    "env".spec_bytes()
}

/// The two top-level keys differ.
proof fn lemma_settings_keys_differ()
    ensures
        out_dir_key() != tools_key(),
{
    reveal_strlit("latex-workshop.latex.outDir");
    reveal_strlit("latex-workshop.latex.tools");
    assert(is_ascii_chars("latex-workshop.latex.outDir"@));
    assert(is_ascii_chars("latex-workshop.latex.tools"@));
    is_ascii_chars_encode_utf8("latex-workshop.latex.outDir"@);
    is_ascii_chars_encode_utf8("latex-workshop.latex.tools"@);
    assert(out_dir_key().len() == 27);
    assert(tools_key().len() == 26);
}

/// The four tool-record keys differ pairwise.
proof fn lemma_tool_keys_differ()
    ensures
        name_key() != command_key(),
        name_key() != args_key(),
        name_key() != env_key(),
        command_key() != args_key(),
        command_key() != env_key(),
        args_key() != env_key(),
{
    reveal_strlit("name");
    reveal_strlit("command");
    reveal_strlit("args");
    reveal_strlit("env");
    assert(is_ascii_chars("name"@));
    assert(is_ascii_chars("command"@));
    assert(is_ascii_chars("args"@));
    assert(is_ascii_chars("env"@));
    is_ascii_chars_encode_utf8("name"@);
    is_ascii_chars_encode_utf8("command"@);
    is_ascii_chars_encode_utf8("args"@);
    is_ascii_chars_encode_utf8("env"@);
    assert(name_key().len() == 4);
    assert(command_key().len() == 7);
    assert(args_key().len() == 4);
    assert(env_key().len() == 3);
    assert(name_key()[0] == 'n' as u8);
    assert(args_key()[0] == 'a' as u8);
}

/// The text of a string value, the empty sequence for any other value.
pub open spec fn forced_string(v: serde_json::Value) -> Seq<u8> {
    match json::string_of(v) {
        Some(s) => s,
        None => Seq::<u8>::empty(),
    }
}

/// The fields of a tool-record value (empty when it is not an object).
pub open spec fn tool_fields(v: serde_json::Value) -> Map<Seq<u8>, serde_json::Value> {
    match json::fields_of(v) {
        Some(m) => json::map_model(m),
        None => json::empty_model(),
    }
}

/// The elements of a tool record's argument list.
pub open spec fn tool_arg_values(v: serde_json::Value) -> Seq<serde_json::Value> {
    match json::elements_of(tool_fields(v)[args_key()]) {
        Some(a) => a,
        None => Seq::<serde_json::Value>::empty(),
    }
}

/// A tool record's name.
pub open spec fn tool_name(v: serde_json::Value) -> Seq<u8> {
    forced_string(tool_fields(v)[name_key()])
}

/// A tool record's command.
pub open spec fn tool_command(v: serde_json::Value) -> Seq<u8> {
    forced_string(tool_fields(v)[command_key()])
}

/// A tool record's argument list, as bytes.
pub open spec fn tool_args(v: serde_json::Value) -> Seq<Seq<u8>> {
    tool_arg_values(v).map_values(|e: serde_json::Value| forced_string(e))
}

/// The entries of a tool record's environment object, in iteration order.
pub open spec fn tool_env_pairs(v: serde_json::Value) -> Seq<(Seq<u8>, serde_json::Value)> {
    match json::fields_of(tool_fields(v)[env_key()]) {
        Some(em) => json::map_pairs(em),
        None => Seq::<(Seq<u8>, serde_json::Value)>::empty(),
    }
}

/// A tool record's environment, as byte pairs.
pub open spec fn tool_env(v: serde_json::Value) -> Seq<(Seq<u8>, Seq<u8>)> {
    tool_env_pairs(v).map_values(|p: (Seq<u8>, serde_json::Value)| (p.0, forced_string(p.1)))
}

/// A tool-record value is well-formed: an object carrying a string `name`,
/// a string `command`, a list `args` of strings, and an object `env` of
/// strings.
pub open spec fn tool_ok(v: serde_json::Value) -> bool {
    &&& json::fields_of(v) is Some
    &&& tool_fields(v).contains_key(name_key())
    &&& json::string_of(tool_fields(v)[name_key()]) is Some
    &&& tool_fields(v).contains_key(command_key())
    &&& json::string_of(tool_fields(v)[command_key()]) is Some
    &&& tool_fields(v).contains_key(args_key())
    &&& json::elements_of(tool_fields(v)[args_key()]) is Some
    &&& (forall|k: int|
        0 <= k < tool_arg_values(v).len() ==> json::string_of(#[trigger] tool_arg_values(v)[k])
            is Some)
    &&& tool_fields(v).contains_key(env_key())
    &&& json::fields_of(tool_fields(v)[env_key()]) is Some
    &&& (forall|k: int|
        0 <= k < tool_env_pairs(v).len() ==> json::string_of((#[trigger] tool_env_pairs(v)[k]).1)
            is Some)
}

/// The top-level fields of a settings document (empty when the document is
/// not a JSON object).
pub open spec fn settings_fields(bytes: Seq<u8>) -> Map<Seq<u8>, serde_json::Value> {
    match json::json_parsed(bytes) {
        Some(v) => match json::fields_of(v) {
            Some(m) => json::map_model(m),
            None => json::empty_model(),
        },
        None => json::empty_model(),
    }
}

/// The tool-record values of a settings document.
pub open spec fn settings_tool_values(bytes: Seq<u8>) -> Seq<serde_json::Value> {
    match json::elements_of(settings_fields(bytes)[tools_key()]) {
        Some(ts) => ts,
        None => Seq::<serde_json::Value>::empty(),
    }
}

/// The output-directory field of a settings document.
pub open spec fn settings_out_dir(bytes: Seq<u8>) -> Seq<u8> {
    forced_string(settings_fields(bytes)[out_dir_key()])
}

/// A settings document is well-formed: a JSON object with a string
/// output-directory field and a list of well-formed tool records.
pub open spec fn settings_ok(bytes: Seq<u8>) -> bool {
    match json::json_parsed(bytes) {
        None => false,
        Some(root) => match json::fields_of(root) {
            None => false,
            Some(m) => {
                let model = json::map_model(m);
                &&& model.contains_key(out_dir_key())
                &&& json::string_of(model[out_dir_key()]) is Some
                &&& model.contains_key(tools_key())
                &&& json::elements_of(model[tools_key()]) is Some
                &&& (forall|t: int|
                    0 <= t < settings_tool_values(bytes).len() ==> tool_ok(
                        #[trigger] settings_tool_values(bytes)[t],
                    ))
            },
        },
    }
}

/// The argument list of a decoded tool, as bytes.
pub open spec fn args_of_vec(a: Seq<Vec<u8>>) -> Seq<Seq<u8>> {
    a.map_values(|x: Vec<u8>| x@)
}

/// The environment of a decoded tool, as byte pairs.
pub open spec fn env_of_vec(e: Seq<(Vec<u8>, Vec<u8>)>) -> Seq<(Seq<u8>, Seq<u8>)> {
    e.map_values(|p: (Vec<u8>, Vec<u8>)| (p.0@, p.1@))
}

/// A decoded tool record carries exactly the fields of the tool value.
pub open spec fn tool_matches(t: LatexTool, v: serde_json::Value) -> bool {
    &&& t.name@ == tool_name(v)
    &&& t.command@ == tool_command(v)
    &&& args_of_vec(t.args@) == tool_args(v)
    &&& env_of_vec(t.env@) == tool_env(v)
}

/// The path-flag token that introduces the build-recipe path in a tool's
/// argument list.
pub open spec fn flag_token() -> Seq<u8> {
    "-r".spec_bytes()
}

/// The argument at `i` is the path-flag token and an argument follows it.
pub open spec fn is_flag_pos(args: Seq<Vec<u8>>, i: int) -> bool {
    &&& 0 <= i
    &&& i + 1 < args.len()
    &&& args[i]@ == flag_token()
}

/// Some argument position carries the path-flag token.
pub open spec fn has_flag(args: Seq<Vec<u8>>) -> bool {
    exists|i: int| is_flag_pos(args, i)
}

/// `i` is the leftmost argument position carrying the path-flag token.
pub open spec fn is_first_flag(args: Seq<Vec<u8>>, i: int) -> bool {
    &&& is_flag_pos(args, i)
    &&& forall|i2: int| 0 <= i2 < i ==> !is_flag_pos(args, i2)
}

/// The leftmost flag position (meaningful when some position carries the
/// flag).
pub open spec fn first_flag_pos(args: Seq<Vec<u8>>) -> int {
    choose|i: int| is_first_flag(args, i)
}

/// Two leftmost flag positions are the same position.
proof fn lemma_first_flag_unique(args: Seq<Vec<u8>>, i1: int, i2: int)
    requires
        is_first_flag(args, i1),
        is_first_flag(args, i2),
    ensures
        i1 == i2,
{
    if i1 < i2 {
        assert(!is_flag_pos(args, i1));
    }
    if i2 < i1 {
        assert(!is_flag_pos(args, i2));
    }
}

/// As [`is_flag_pos`], over plain byte sequences.
pub open spec fn is_flag_pos_bytes(args: Seq<Seq<u8>>, i: int) -> bool {
    &&& 0 <= i
    &&& i + 1 < args.len()
    &&& args[i] == flag_token()
}

/// As [`has_flag`], over plain byte sequences.
pub open spec fn has_flag_bytes(args: Seq<Seq<u8>>) -> bool {
    exists|i: int| is_flag_pos_bytes(args, i)
}

/// The flag is found in a decoded argument list exactly when it is found in
/// its byte-level image.
proof fn lemma_flag_bytes_equiv(a: Seq<Vec<u8>>)
    ensures
        has_flag(a) <==> has_flag_bytes(args_of_vec(a)),
{
    if has_flag(a) {
        let i = choose|i: int| is_flag_pos(a, i);
        assert(is_flag_pos_bytes(args_of_vec(a), i));
    }
    if has_flag_bytes(args_of_vec(a)) {
        let i = choose|i: int| is_flag_pos_bytes(args_of_vec(a), i);
        assert(is_flag_pos(a, i));
    }
}

/// As [`is_first_flag`], over plain byte sequences.
pub open spec fn is_first_flag_bytes(args: Seq<Seq<u8>>, i: int) -> bool {
    &&& is_flag_pos_bytes(args, i)
    &&& forall|i2: int| 0 <= i2 < i ==> !is_flag_pos_bytes(args, i2)
}

/// As [`first_flag_pos`], over plain byte sequences.
pub open spec fn first_flag_pos_bytes(args: Seq<Seq<u8>>) -> int {
    choose|i: int| is_first_flag_bytes(args, i)
}

/// Two leftmost flag positions are the same position.
proof fn lemma_first_flag_bytes_unique(args: Seq<Seq<u8>>, i1: int, i2: int)
    requires
        is_first_flag_bytes(args, i1),
        is_first_flag_bytes(args, i2),
    ensures
        i1 == i2,
{
    if i1 < i2 {
        assert(!is_flag_pos_bytes(args, i1));
    }
    if i2 < i1 {
        assert(!is_flag_pos_bytes(args, i2));
    }
}

/// A decoded argument list and its byte-level image agree on where the
/// leftmost flag sits.
proof fn lemma_first_flag_equiv(a: Seq<Vec<u8>>, i: int)
    ensures
        is_first_flag(a, i) <==> is_first_flag_bytes(args_of_vec(a), i),
{
    if is_first_flag(a, i) {
        assert(args_of_vec(a)[i] == a[i]@);
        assert(is_flag_pos_bytes(args_of_vec(a), i));
        assert forall|i2: int| 0 <= i2 < i implies !is_flag_pos_bytes(args_of_vec(a), i2) by {
            assert(!is_flag_pos(a, i2));
            assert(args_of_vec(a)[i2] == a[i2]@);
        }
    }
    if is_first_flag_bytes(args_of_vec(a), i) {
        assert(args_of_vec(a)[i] == a[i]@);
        assert(is_flag_pos(a, i));
        assert forall|i2: int| 0 <= i2 < i implies !is_flag_pos(a, i2) by {
            assert(!is_flag_pos_bytes(args_of_vec(a), i2));
            assert(args_of_vec(a)[i2] == a[i2]@);
        }
    }
}

/// A well-formed settings document whose first tool record carries the
/// path-flag token followed by an argument.
pub open spec fn settings_has_flag(bytes: Seq<u8>) -> bool {
    &&& settings_tool_values(bytes).len() > 0
    &&& has_flag_bytes(tool_args(settings_tool_values(bytes)[0]))
}

/// Position of the first path-flag token that is followed by an argument.
fn find_flag(args: &Vec<Vec<u8>>) -> (r: Option<usize>)
    ensures
        match r {
            Some(i) => is_first_flag(args@, i as int),
            None => !has_flag(args@),
        },
{
    if args.len() < 2 {
        return None;
    }
    let flag = bytes_of("-r");
    let n = args.len();
    let mut i: usize = 0;
    while i < n - 1
        invariant
            2 <= n,
            n == args@.len(),
            i <= n - 1,
            flag@ == flag_token(),
            forall|i2: int| 0 <= i2 < i ==> !is_flag_pos(args@, i2),
        decreases n - i,
    {
        if bytes_eq(&args[i], &flag) {
            return Some(i);
        }
        i += 1;
    }
    None
}

/// Decode one tool record. Succeeds exactly on well-formed records, and the
/// decoded fields are the record's fields.
#[verifier::loop_isolation(false)]
fn parse_tool(v: serde_json::Value) -> (r: Result<LatexTool, NoteError>)
    ensures
        r is Ok <==> tool_ok(v),
        r matches Ok(t) ==> tool_matches(t, v) && t.wf(),
        r matches Err(e) ==> e == NoteError::MalformedSettings,
{
    proof {
        lemma_tool_keys_differ();
    }
    let mut obj = match json::value_into_object(v) {
        Ok(m) => m,
        Err(_) => return Err(NoteError::MalformedSettings),
    };
    let ghost model = json::map_model(obj);
    let name_key_b = bytes_of("name");
    let name = match json::map_remove(&mut obj, &name_key_b) {
        Some(nv) => match json::value_into_bytes(nv) {
            Ok(b) => b,
            Err(_) => return Err(NoteError::MalformedSettings),
        },
        None => return Err(NoteError::MalformedSettings),
    };
    let command_key_b = bytes_of("command");
    let command = match json::map_remove(&mut obj, &command_key_b) {
        Some(cv) => match json::value_into_bytes(cv) {
            Ok(b) => b,
            Err(_) => return Err(NoteError::MalformedSettings),
        },
        None => return Err(NoteError::MalformedSettings),
    };
    let args_key_b = bytes_of("args");
    let mut arg_vals = match json::map_remove(&mut obj, &args_key_b) {
        Some(av) => match json::value_into_array(av) {
            Ok(a) => a,
            Err(_) => return Err(NoteError::MalformedSettings),
        },
        None => return Err(NoteError::MalformedSettings),
    };
    let ghost arg_seq = arg_vals@;
    proof {
        assert(arg_seq == tool_arg_values(v));
    }
    let mut args: Vec<Vec<u8>> = Vec::new();
    while arg_vals.len() > 0
        invariant
            arg_vals@ == arg_seq.skip(args@.len() as int),
            args@.len() <= arg_seq.len(),
            forall|k: int|
                0 <= k < args@.len() ==> json::string_of(#[trigger] arg_seq[k]) is Some,
            forall|k: int|
                0 <= k < args@.len() ==> (#[trigger] args@[k])@ == forced_string(arg_seq[k]),
        decreases arg_vals@.len(),
    {
        let ghost idx = args@.len() as int;
        let av = arg_vals.remove(0);
        proof {
            assert(av == arg_seq[idx]);
            assert(arg_seq.skip(idx).remove(0) =~= arg_seq.skip(idx + 1));
        }
        match json::value_into_bytes(av) {
            Ok(b) => args.push(b),
            Err(_) => {
                proof {
                    assert(json::string_of(tool_arg_values(v)[idx]) is None);
                }
                return Err(NoteError::MalformedSettings);
            },
        }
    }
    let env_key_b = bytes_of("env");
    let env_obj = match json::map_remove(&mut obj, &env_key_b) {
        Some(ev) => match json::value_into_object(ev) {
            Ok(m) => m,
            Err(_) => return Err(NoteError::MalformedSettings),
        },
        None => return Err(NoteError::MalformedSettings),
    };
    let mut env_pairs = json::map_into_pairs(env_obj);
    let ghost pair_seq = env_pairs@;
    proof {
        assert(json::map_pairs(env_obj) == tool_env_pairs(v));
        assert forall|k: int| 0 <= k < pair_seq.len() implies (#[trigger] pair_seq[k]).0@
            == tool_env_pairs(v)[k].0 && pair_seq[k].1 == tool_env_pairs(v)[k].1 && valid_utf8(
            pair_seq[k].0@,
        ) by {}
    }
    let mut env: Vec<(Vec<u8>, Vec<u8>)> = Vec::new();
    while env_pairs.len() > 0
        invariant
            env_pairs@ == pair_seq.skip(env@.len() as int),
            env@.len() <= pair_seq.len(),
            pair_seq.len() == tool_env_pairs(v).len(),
            forall|k: int|
                0 <= k < pair_seq.len() ==> (#[trigger] pair_seq[k]).0@ == tool_env_pairs(v)[k].0
                    && pair_seq[k].1 == tool_env_pairs(v)[k].1 && valid_utf8(pair_seq[k].0@),
            forall|k: int|
                0 <= k < env@.len() ==> json::string_of((#[trigger] tool_env_pairs(v)[k]).1)
                    is Some,
            forall|k: int|
                0 <= k < env@.len() ==> (#[trigger] env@[k]).0@ == tool_env(v)[k].0 && env@[k].1@
                    == tool_env(v)[k].1 && valid_utf8(env@[k].0@),
        decreases env_pairs@.len(),
    {
        let ghost idx = env@.len() as int;
        let kv = env_pairs.remove(0);
        proof {
            assert(kv == pair_seq[idx]);
            assert(pair_seq.skip(idx).remove(0) =~= pair_seq.skip(idx + 1));
        }
        match json::value_into_bytes(kv.1) {
            Ok(b) => env.push((kv.0, b)),
            Err(_) => {
                proof {
                    assert(json::string_of(tool_env_pairs(v)[idx].1) is None);
                }
                return Err(NoteError::MalformedSettings);
            },
        }
    }
    let t = LatexTool { name, command, args, env };
    proof {
        assert forall|k: int| 0 <= k < tool_arg_values(v).len() implies json::string_of(
            #[trigger] tool_arg_values(v)[k],
        ) is Some by {
            assert(json::string_of(arg_seq[k]) is Some);
        }
        assert forall|k: int| 0 <= k < tool_env_pairs(v).len() implies json::string_of(
            (#[trigger] tool_env_pairs(v)[k]).1,
        ) is Some by {
            assert(json::string_of(tool_env_pairs(v)[k].1) is Some);
        }
        assert(tool_ok(v));
        assert forall|k: int| 0 <= k < t.args@.len() implies args_of_vec(t.args@)[k] == tool_args(
            v,
        )[k] by {
            assert(args@[k]@ == forced_string(arg_seq[k]));
        }
        assert(args_of_vec(t.args@) =~= tool_args(v));
        assert forall|k: int| 0 <= k < t.env@.len() implies env_of_vec(t.env@)[k] == tool_env(v)[k]
            by {
            assert(env@[k].0@ == tool_env(v)[k].0 && env@[k].1@ == tool_env(v)[k].1);
        }
        assert(env_of_vec(t.env@) =~= tool_env(v));
    }
    Ok(t)
}

/// Decode an editor-settings document. Succeeds exactly on well-formed
/// documents; the decoded fields are the document's fields, and every
/// other top-level field is carried through untouched.
#[verifier::loop_isolation(false)]
pub fn parse_settings(bytes: &Vec<u8>) -> (r: Result<EditorSettings, NoteError>)
    ensures
        r is Ok <==> settings_ok(bytes@),
        r matches Ok(s) ==> s.out_dir@ == settings_out_dir(bytes@) && s.tools@.len()
            == settings_tool_values(bytes@).len() && s.wf() && json::map_model(s.other_fields)
            == settings_fields(bytes@).remove(out_dir_key()).remove(tools_key()) && (forall|t: int|
            0 <= t < s.tools@.len() ==> tool_matches(
                #[trigger] s.tools@[t],
                settings_tool_values(bytes@)[t],
            )),
        r matches Err(e) ==> e == NoteError::MalformedSettings,
{
    proof {
        lemma_settings_keys_differ();
    }
    let v = match json::parse_value(bytes) {
        Ok(v) => v,
        Err(_) => return Err(NoteError::MalformedSettings),
    };
    let mut obj = match json::value_into_object(v) {
        Ok(m) => m,
        Err(_) => return Err(NoteError::MalformedSettings),
    };
    let ghost model = json::map_model(obj);
    let out_key_b = bytes_of("latex-workshop.latex.outDir");
    let out_dir = match json::map_remove(&mut obj, &out_key_b) {
        Some(ov) => match json::value_into_bytes(ov) {
            Ok(b) => b,
            Err(_) => return Err(NoteError::MalformedSettings),
        },
        None => return Err(NoteError::MalformedSettings),
    };
    let tools_key_b = bytes_of("latex-workshop.latex.tools");
    let mut tool_vals = match json::map_remove(&mut obj, &tools_key_b) {
        Some(tv) => match json::value_into_array(tv) {
            Ok(a) => a,
            Err(_) => return Err(NoteError::MalformedSettings),
        },
        None => return Err(NoteError::MalformedSettings),
    };
    let ghost ts = tool_vals@;
    proof {
        assert(ts == settings_tool_values(bytes@));
    }
    let mut tools: Vec<LatexTool> = Vec::new();
    while tool_vals.len() > 0
        invariant
            tool_vals@ == ts.skip(tools@.len() as int),
            tools@.len() <= ts.len(),
            ts == settings_tool_values(bytes@),
            forall|t: int| 0 <= t < tools@.len() ==> tool_ok(#[trigger] ts[t]),
            forall|t: int|
                0 <= t < tools@.len() ==> tool_matches(#[trigger] tools@[t], ts[t])
                    && tools@[t].wf(),
        decreases tool_vals@.len(),
    {
        let ghost idx = tools@.len() as int;
        let tv = tool_vals.remove(0);
        proof {
            assert(tv == ts[idx]);
            assert(ts.skip(idx).remove(0) =~= ts.skip(idx + 1));
        }
        match parse_tool(tv) {
            Ok(t) => tools.push(t),
            Err(e) => {
                proof {
                    assert(!tool_ok(settings_tool_values(bytes@)[idx]));
                }
                return Err(e);
            },
        }
    }
    let s = EditorSettings { out_dir, tools, other_fields: obj };
    proof {
        assert forall|t: int| 0 <= t < settings_tool_values(bytes@).len() implies tool_ok(
            #[trigger] settings_tool_values(bytes@)[t],
        ) by {
            assert(tool_ok(ts[t]));
        }
        assert(settings_ok(bytes@));
    }
    Ok(s)
}

/// Point the decoded settings at the new project: `out_dir` becomes the
/// project's output directory, and the argument after the first path-flag
/// token of the first tool becomes `rc_path`. Everything else — unknown
/// top-level fields, the other tools, the other arguments — is unchanged.
/// Fails exactly when no tool record carries the anchor.
pub fn rewrite_settings(settings: EditorSettings, out_dir: &Vec<u8>, rc_path: &Vec<u8>) -> (r:
    Result<EditorSettings, NoteError>)
    ensures
        match r {
            Ok(t) => {
                &&& settings.tools@.len() > 0
                &&& has_flag(settings.tools@[0].args@)
                &&& t.out_dir@ == out_dir@
                &&& t.other_fields == settings.other_fields
                &&& t.tools@.len() == settings.tools@.len()
                &&& forall|k: int|
                    1 <= k < settings.tools@.len() ==> t.tools@[k] == settings.tools@[k]
                &&& t.tools@[0].name == settings.tools@[0].name
                &&& t.tools@[0].command == settings.tools@[0].command
                &&& t.tools@[0].env == settings.tools@[0].env
                &&& t.tools@[0].args@.len() == settings.tools@[0].args@.len()
                &&& is_first_flag(settings.tools@[0].args@, first_flag_pos(settings.tools@[0].args@))
                &&& t.tools@[0].args@[first_flag_pos(settings.tools@[0].args@) + 1]@ == rc_path@
                &&& forall|k: int|
                    0 <= k < settings.tools@[0].args@.len() && k != first_flag_pos(
                        settings.tools@[0].args@,
                    ) + 1 ==> t.tools@[0].args@[k] == settings.tools@[0].args@[k]
                &&& (settings.wf() ==> t.wf())
            },
            Err(e) => {
                &&& e == NoteError::MissingPathFlag
                &&& (settings.tools@.len() == 0 || !has_flag(settings.tools@[0].args@))
            },
        },
{
    let mut s = settings;
    if s.tools.len() == 0 {
        return Err(NoteError::MissingPathFlag);
    }
    let mut tool0 = s.tools.remove(0);
    match find_flag(&tool0.args) {
        None => Err(NoteError::MissingPathFlag),
        Some(i) => {
            let ghost old_args = tool0.args@;
            proof {
                assert(is_first_flag(old_args, first_flag_pos(old_args)));
                lemma_first_flag_unique(old_args, first_flag_pos(old_args), i as int);
            }
            let n = tool0.args.len();
            assert(i + 1 < n);
            let _replaced = tool0.args.remove(i + 1);
            tool0.args.insert(i + 1, copy_bytes(rc_path));
            proof {
                assert forall|k: int| 0 <= k < old_args.len() && k != i + 1 implies tool0.args@[k]
                    == old_args[k] by {
                    assert(tool0.args@ == old_args.remove(i + 1).insert(
                        i + 1,
                        tool0.args@[i + 1],
                    ));
                }
            }
            s.tools.insert(0, tool0);
            s.out_dir = copy_bytes(out_dir);
            proof {
                assert(s.tools@ == settings.tools@.drop_first().insert(0, s.tools@[0]));
                assert forall|k: int| 1 <= k < settings.tools@.len() implies s.tools@[k]
                    == settings.tools@[k] by {
                    assert(settings.tools@.drop_first()[k - 1] == settings.tools@[k]);
                }
                if settings.wf() {
                    assert forall|t: int| 0 <= t < s.tools@.len() implies (
                    #[trigger] s.tools@[t]).wf() by {
                        assert(settings.tools@[t].wf());
                        if t == 0 {
                            assert(s.tools@[0].env == settings.tools@[0].env);
                        }
                    }
                }
            }
            Ok(s)
        },
    }
}

/// The argument-list values a tool record is encoded with.
pub open spec fn args_values(args: Seq<Seq<u8>>) -> Seq<serde_json::Value> {
    args.map_values(|a: Seq<u8>| json::string_of_bytes(a))
}

/// The environment object a tool record is encoded with.
pub open spec fn env_model(env: Seq<(Seq<u8>, Seq<u8>)>) -> Map<Seq<u8>, serde_json::Value>
    decreases env.len(),
{
    if env.len() == 0 {
        json::empty_model()
    } else {
        env_model(env.drop_last()).insert(env.last().0, json::string_of_bytes(env.last().1))
    }
}

/// The value a tool record with the given fields is encoded as.
pub open spec fn tool_value_from_parts(
    name: Seq<u8>,
    command: Seq<u8>,
    args: Seq<Seq<u8>>,
    env: Seq<(Seq<u8>, Seq<u8>)>,
) -> serde_json::Value {
    json::object_of_model(
        json::empty_model().insert(name_key(), json::string_of_bytes(name)).insert(
            command_key(),
            json::string_of_bytes(command),
        ).insert(args_key(), json::array_of(args_values(args))).insert(
            env_key(),
            json::object_of_model(env_model(env)),
        ),
    )
}

/// The value a decoded tool record is encoded as.
pub open spec fn tool_value_of(t: LatexTool) -> serde_json::Value {
    tool_value_from_parts(t.name@, t.command@, args_of_vec(t.args@), env_of_vec(t.env@))
}

/// The value a tool record of the document is re-encoded as, untouched.
pub open spec fn tool_value_plain(v: serde_json::Value) -> serde_json::Value {
    tool_value_from_parts(tool_name(v), tool_command(v), tool_args(v), tool_env(v))
}

/// An argument list with the argument after the leftmost flag replaced.
pub open spec fn rewritten_args(args: Seq<Seq<u8>>, rc_path: Seq<u8>) -> Seq<Seq<u8>> {
    args.update(first_flag_pos_bytes(args) + 1, rc_path)
}

/// The value the first tool record is re-encoded as, its build-recipe
/// argument pointed at `rc_path`.
pub open spec fn tool_value_rewritten(v: serde_json::Value, rc_path: Seq<u8>) -> serde_json::Value {
    tool_value_from_parts(
        tool_name(v),
        tool_command(v),
        rewritten_args(tool_args(v), rc_path),
        tool_env(v),
    )
}

/// The bytes the whole settings pipeline produces for a well-formed
/// template: the unknown fields, the tool list with only the first tool's
/// build-recipe argument rewritten, and the new output directory,
/// pretty-printed.
pub open spec fn settings_result(bytes: Seq<u8>, out_dir: Seq<u8>, rc_path: Seq<u8>) -> Seq<u8> {
    let ts = settings_tool_values(bytes);
    json::pretty_bytes(
        json::object_of_model(
            settings_fields(bytes).remove(out_dir_key()).remove(tools_key()).insert(
                tools_key(),
                json::array_of(
                    Seq::new(
                        ts.len(),
                        |t: int|
                            if t == 0 {
                                tool_value_rewritten(ts[0], rc_path)
                            } else {
                                tool_value_plain(ts[t])
                            },
                    ),
                ),
            ).insert(out_dir_key(), json::string_of_bytes(out_dir)),
        ),
    )
}

/// The values a tool list is encoded as.
pub open spec fn tools_values(tools: Seq<LatexTool>) -> Seq<serde_json::Value> {
    tools.map_values(|t: LatexTool| tool_value_of(t))
}

/// The serialized form of the settings: the unknown fields plus the two
/// known fields, pretty-printed.
pub open spec fn settings_json_bytes(s: EditorSettings) -> Seq<u8> {
    json::pretty_bytes(
        json::object_of_model(
            json::map_model(s.other_fields).insert(
                tools_key(),
                json::array_of(tools_values(s.tools@)),
            ).insert(out_dir_key(), json::string_of_bytes(s.out_dir@)),
        ),
    )
}

/// Encode one tool record back into a JSON object value.
#[verifier::loop_isolation(false)]
fn tool_to_value(t: LatexTool) -> (r: serde_json::Value)
    requires
        t.wf(),
    ensures
        r == tool_value_of(t),
{
    let ghost t0 = t;
    let LatexTool { name, command, args, env } = t;
    let mut m = json::map_new();
    let name_key_b = bytes_of("name");
    json::map_insert(&mut m, &name_key_b, json::value_from_bytes(&name));
    let command_key_b = bytes_of("command");
    json::map_insert(&mut m, &command_key_b, json::value_from_bytes(&command));
    let ghost args_seq = args@;
    let mut arr: Vec<serde_json::Value> = Vec::new();
    let mut args = args;
    while args.len() > 0
        invariant
            args@ == args_seq.skip(arr@.len() as int),
            arr@.len() <= args_seq.len(),
            forall|k: int|
                0 <= k < arr@.len() ==> #[trigger] arr@[k] == json::string_of_bytes(args_seq[k]@),
        decreases args@.len(),
    {
        let ghost idx = arr@.len() as int;
        let a = args.remove(0);
        proof {
            assert(a == args_seq[idx]);
            assert(args_seq.skip(idx).remove(0) =~= args_seq.skip(idx + 1));
        }
        arr.push(json::value_from_bytes(&a));
    }
    proof {
        assert(arr@ =~= args_values(args_of_vec(args_seq)));
    }
    let args_key_b = bytes_of("args");
    json::map_insert(&mut m, &args_key_b, json::value_from_array(arr));
    let ghost env_seq = env@;
    let mut em = json::map_new();
    let mut env = env;
    let ghost mut done: int = 0;
    while env.len() > 0
        invariant
            env@ == env_seq.skip(done),
            0 <= done <= env_seq.len(),
            forall|k: int| 0 <= k < env_seq.len() ==> valid_utf8((#[trigger] env_seq[k]).0@),
            json::map_model(em) == env_model(env_of_vec(env_seq.take(done))),
        decreases env@.len(),
    {
        let kv = env.remove(0);
        proof {
            assert(kv == env_seq[done]);
            assert(env_seq.skip(done).remove(0) =~= env_seq.skip(done + 1));
        }
        json::map_insert(&mut em, &kv.0, json::value_from_bytes(&kv.1));
        proof {
            let prefix = env_of_vec(env_seq.take(done + 1));
            assert(prefix.drop_last() =~= env_of_vec(env_seq.take(done)));
            assert(prefix.last() == (env_seq[done].0@, env_seq[done].1@));
            done = done + 1;
        }
    }
    proof {
        assert(env_seq.take(done) =~= env_seq);
    }
    let env_key_b = bytes_of("env");
    json::map_insert(&mut m, &env_key_b, json::value_from_object(em));
    json::value_from_object(m)
}

/// Encode the settings back into pretty-printed JSON: the known fields put
/// back beside the untouched unknown fields. Deterministic in the settings
/// value, so two equal settings serialize to the same bytes.
#[verifier::loop_isolation(false)]
pub fn settings_to_json(settings: EditorSettings) -> (r: Vec<u8>)
    requires
        settings.wf(),
    ensures
        r@ == settings_json_bytes(settings),
{
    let ghost s0 = settings;
    let EditorSettings { out_dir, tools, other_fields } = settings;
    let ghost tool_seq = tools@;
    let mut tool_vals: Vec<serde_json::Value> = Vec::new();
    let mut tools = tools;
    while tools.len() > 0
        invariant
            tools@ == tool_seq.skip(tool_vals@.len() as int),
            tool_vals@.len() <= tool_seq.len(),
            forall|k: int| 0 <= k < tool_seq.len() ==> (#[trigger] tool_seq[k]).wf(),
            forall|k: int|
                0 <= k < tool_vals@.len() ==> #[trigger] tool_vals@[k] == tool_value_of(
                    tool_seq[k],
                ),
        decreases tools@.len(),
    {
        let ghost idx = tool_vals@.len() as int;
        let t = tools.remove(0);
        proof {
            assert(t == tool_seq[idx]);
            assert(tool_seq.skip(idx).remove(0) =~= tool_seq.skip(idx + 1));
        }
        tool_vals.push(tool_to_value(t));
    }
    proof {
        assert(tool_vals@ =~= tools_values(tool_seq));
    }
    let mut obj = other_fields;
    let tools_key_b = bytes_of("latex-workshop.latex.tools");
    json::map_insert(&mut obj, &tools_key_b, json::value_from_array(tool_vals));
    let out_key_b = bytes_of("latex-workshop.latex.outDir");
    json::map_insert(&mut obj, &out_key_b, json::value_from_bytes(&out_dir));
    let root = json::value_from_object(obj);
    match json::value_to_pretty_bytes(&root) {
        Ok(b) => b,
        Err(_) => {
            proof {
                assert(false);
            }
            Vec::new()
        },
    }
}

/// The whole settings pipeline for one new project: decode the template,
/// wire in the project's output directory and build-recipe path, encode the
/// result. Succeeds exactly when the template is well-formed and its first
/// tool record carries the path-flag anchor.
pub fn settings_artifact(template: &Vec<u8>, out_dir: &Vec<u8>, rc_path: &Vec<u8>) -> (r: Result<
    Vec<u8>,
    NoteError,
>)
    ensures
        r is Ok <==> settings_ok(template@) && settings_has_flag(template@),
        r matches Ok(b) ==> b@ == settings_result(template@, out_dir@, rc_path@),
        r matches Err(e) ==> if settings_ok(template@) {
            e == NoteError::MissingPathFlag && !settings_has_flag(template@)
        } else {
            e == NoteError::MalformedSettings
        },
{
    let parsed = match parse_settings(template) {
        Ok(s) => s,
        Err(e) => return Err(e),
    };
    let ghost ts = settings_tool_values(template@);
    proof {
        if parsed.tools@.len() > 0 {
            lemma_flag_bytes_equiv(parsed.tools@[0].args@);
            assert(args_of_vec(parsed.tools@[0].args@) == tool_args(ts[0]));
        }
    }
    let rewritten = match rewrite_settings(parsed, out_dir, rc_path) {
        Ok(s) => s,
        Err(e) => return Err(e),
    };
    proof {
        let p0args = parsed.tools@[0].args@;
        let fp = first_flag_pos(p0args);
        assert(is_first_flag(p0args, fp));
        lemma_first_flag_equiv(p0args, fp);
        assert(is_first_flag_bytes(tool_args(ts[0]), fp));
        assert(is_first_flag_bytes(tool_args(ts[0]), first_flag_pos_bytes(tool_args(ts[0]))));
        lemma_first_flag_bytes_unique(
            tool_args(ts[0]),
            first_flag_pos_bytes(tool_args(ts[0])),
            fp,
        );
        assert(args_of_vec(rewritten.tools@[0].args@) =~= rewritten_args(
            tool_args(ts[0]),
            rc_path@,
        )) by {
            assert forall|k: int| 0 <= k < p0args.len() implies args_of_vec(
                rewritten.tools@[0].args@,
            )[k] == rewritten_args(tool_args(ts[0]), rc_path@)[k] by {
                if k != fp + 1 {
                    assert(rewritten.tools@[0].args@[k] == p0args[k]);
                    assert(args_of_vec(p0args)[k] == p0args[k]@);
                }
            }
        }
        assert(tool_matches(parsed.tools@[0], ts[0]));
        assert(tool_value_of(rewritten.tools@[0]) == tool_value_rewritten(ts[0], rc_path@));
        assert forall|t: int| 1 <= t < rewritten.tools@.len() implies tool_value_of(
            #[trigger] rewritten.tools@[t],
        ) == tool_value_plain(ts[t]) by {
            assert(rewritten.tools@[t] == parsed.tools@[t]);
            assert(tool_matches(parsed.tools@[t], ts[t]));
        }
        assert(tools_values(rewritten.tools@) =~= Seq::new(
            ts.len(),
            |t: int|
                if t == 0 {
                    tool_value_rewritten(ts[0], rc_path@)
                } else {
                    tool_value_plain(ts[t])
                },
        ));
        assert(json::map_model(rewritten.other_fields) == settings_fields(template@).remove(
            out_dir_key(),
        ).remove(tools_key()));
    }
    Ok(settings_to_json(rewritten))
}

} // verus!
