//! The patch engine: rewrites three members of the root object of a JSON
//! document and leaves everything else as it was.

use vstd::prelude::*;
use crate::error::{AppError, AppResult, ErrorView};
use crate::json::{
    array_value, bool_value, describe, has_member, into_object, member, object_model,
    parse_value, parsed, pretty_printed, print_object, set_member, string_value, Json, Step,
};
use crate::text::followed_by;

verus! {

/// What one patch call did, with the document as it stands afterwards.
#[derive(Debug)]
pub struct PatchReport {
    /// Complete content after changes.
    pub content: String,
    /// Whether is_glic_eligible was modified.
    pub changed_is_glic: bool,
    /// Whether variations_country was modified.
    pub changed_variations_country: bool,
    /// Whether variations_permanent_consistency_country was modified.
    pub changed_variations_permanent_country: bool,
}

/// A [`PatchReport`] as a mathematical value.
pub struct PatchReportView {
    pub content: Seq<char>,
    pub changed_is_glic: bool,
    pub changed_variations_country: bool,
    pub changed_variations_permanent_country: bool,
}

impl View for PatchReport {
    type V = PatchReportView;

    open spec fn view(&self) -> PatchReportView {
        PatchReportView {
            content: self.content@,
            changed_is_glic: self.changed_is_glic,
            changed_variations_country: self.changed_variations_country,
            changed_variations_permanent_country: self.changed_variations_permanent_country,
        }
    }
}

/// The key of the eligibility flag.
pub open spec fn glic_key() -> Seq<char> {
    "is_glic_eligible"@
}

/// The key of the locale code.
pub open spec fn country_key() -> Seq<char> {
    "variations_country"@
}

/// The key of the list of locale codes.
pub open spec fn permanent_country_key() -> Seq<char> {
    "variations_permanent_consistency_country"@
}

/// The locale code that the patch writes.
pub open spec fn locale() -> Json {
    Json::String("us"@)
}

/// Whether the patch overwrites the root member `value` found under `key`.
/// The eligibility flag is overwritten only where it is a boolean, the list
/// of locale codes only where it is an array, the locale code whatever it is.
pub open spec fn overwrites(key: Seq<char>, value: Json) -> bool {
    ||| key == glic_key() && value is Bool
    ||| key == country_key()
    ||| key == permanent_country_key() && value is Array
}

/// What the patch writes under one of the three keys.
pub open spec fn replacement(key: Seq<char>) -> Json {
    if key == glic_key() {
        Json::Bool(true)
    } else if key == country_key() {
        locale()
    } else {
        Json::Array(seq![locale()])
    }
}

/// The root member under `key` after the patch, given the one before it.
pub open spec fn patched_member(key: Seq<char>, value: Json) -> Json {
    if overwrites(key, value) {
        replacement(key)
    } else {
        value
    }
}

/// The root object after the patch: the same keys, each member rewritten by
/// [`patched_member`].
pub open spec fn patched(root: Map<Seq<char>, Json>) -> Map<Seq<char>, Json> {
    Map::new(|key: Seq<char>| root.contains_key(key), |key: Seq<char>| patched_member(key, root[key]))
}

/// Whether the patch overwrites the member of `root` under `key`.
pub open spec fn changes(root: Map<Seq<char>, Json>, key: Seq<char>) -> bool {
    root.contains_key(key) && overwrites(key, root[key])
}

/// The report of a patch of `root` whose text is `content`.
pub open spec fn report_of(root: Map<Seq<char>, Json>, content: Seq<char>) -> PatchReportView {
    PatchReportView {
        content,
        changed_is_glic: changes(root, glic_key()),
        changed_variations_country: changes(root, country_key()),
        changed_variations_permanent_country: changes(root, permanent_country_key()),
    }
}

/// What [`apply_patches`] makes of a text: the report, or the message of the
/// invalid-document error.
pub open spec fn patch_outcome(input: Seq<char>) -> Result<PatchReportView, Seq<char>> {
    match parsed(input) {
        Err(why) => Err("Input JSON parsing failed: "@ + why),
        Ok(Json::Object(root)) => match pretty_printed(patched(root)) {
            Err(why) => Err("Output JSON serialization failed: "@ + why),
            Ok(content) => match parsed(content) {
                Err(why) => Err("Generated JSON validation failed: "@ + why),
                Ok(_) => Ok(report_of(root, content)),
            },
        },
        Ok(_) => Err("Config file root is not an object"@),
    }
}

/// The three keys are three different texts.
pub proof fn lemma_keys_differ()
    ensures
        glic_key() != country_key(),
        glic_key() != permanent_country_key(),
        country_key() != permanent_country_key(),
{
    reveal_strlit("is_glic_eligible");
    reveal_strlit("variations_country");
    reveal_strlit("variations_permanent_consistency_country");
    assert(glic_key().len() == 16);
    assert(country_key().len() == 18);
    assert(permanent_country_key().len() == 40);
}

/// The patch neither adds nor removes a member.
pub proof fn lemma_patch_keeps_keys(root: Map<Seq<char>, Json>)
    ensures
        patched(root).dom() == root.dom(),
{
    assert(patched(root).dom() =~= root.dom());
}

/// Patching a second time changes nothing more: the patch is idempotent in
/// value.
pub proof fn lemma_patch_idempotent(root: Map<Seq<char>, Json>)
    ensures
        patched(patched(root)) == patched(root),
{
    lemma_keys_differ();
    assert(patched(patched(root)) =~= patched(root));
}

/// Patching a second time reports the same three flags as the first time: a
/// boolean flag that was set is still a boolean, a list that was replaced is
/// still a list, and the locale code is still there.
pub proof fn lemma_patch_flags_stable(root: Map<Seq<char>, Json>, key: Seq<char>)
    ensures
        changes(patched(root), key) == changes(root, key),
        forall|content: Seq<char>|
            #![trigger report_of(patched(root), content)]
            report_of(patched(root), content) == report_of(root, content),
{
    lemma_keys_differ();
    assert forall|k: Seq<char>| changes(patched(root), k) == changes(root, k) by {}
}

/// A member that the patch does not overwrite stays as it is, whatever it
/// holds.
pub proof fn lemma_patch_keeps_other_members(root: Map<Seq<char>, Json>, key: Seq<char>)
    requires
        !changes(root, key),
    ensures
        patched(root).contains_key(key) == root.contains_key(key),
        root.contains_key(key) ==> patched(root)[key] == root[key],
{
}

/// A member under a key that is none of the three stays as it is.
pub proof fn lemma_patch_keeps_unrelated_keys(root: Map<Seq<char>, Json>, key: Seq<char>)
    requires
        key != glic_key(),
        key != country_key(),
        key != permanent_country_key(),
    ensures
        !changes(root, key),
        patched(root).contains_key(key) == root.contains_key(key),
        root.contains_key(key) ==> patched(root)[key] == root[key],
{
}

/// What lies below the root stays as it is, down to any depth and whatever
/// its keys are called: a walk of two steps or more that starts at a root
/// member which the patch does not overwrite finds after the patch what it
/// found before.
pub proof fn lemma_patch_keeps_nested_values(root: Map<Seq<char>, Json>, path: Seq<Step>)
    requires
        path.len() >= 2,
        path[0] matches Step::Key(key) ==> !changes(root, key),
    ensures
        Json::Object(patched(root)).at(path) == Json::Object(root).at(path),
{
    match path[0] {
        Step::Key(key) => {
            lemma_patch_keeps_other_members(root, key);
        },
        Step::Index(_) => {},
    }
}

/// Where the patch succeeds, the text that it hands out parses.
pub proof fn lemma_patch_output_parses(input: Seq<char>)
    ensures
        patch_outcome(input) matches Ok(report) ==> parsed(report.content) is Ok,
{
}

/// Where the text that a patch hands out parses back to the patched object,
/// patching that text gives the same report once more, flags and text.
pub proof fn lemma_patch_of_output(input: Seq<char>)
    requires
        patch_outcome(input) is Ok,
        parsed(input) matches Ok(Json::Object(root)) && parsed(patch_outcome(input)->Ok_0.content)
            == Ok::<Json, Seq<char>>(Json::Object(patched(root))),
    ensures
        patch_outcome(patch_outcome(input)->Ok_0.content) == patch_outcome(input),
{
    let root = parsed(input)->Ok_0->Object_0;
    lemma_patch_idempotent(root);
    lemma_patch_flags_stable(root, glic_key());
}

/// Rewrites the three members of a root object in place and reports which of
/// them it overwrote. The report's text is left empty.
pub fn patch_object(root: &mut serde_json::Map<String, serde_json::Value>) -> (report: PatchReport)
    ensures
        object_model(*final(root)) == patched(object_model(*old(root))),
        report@ == report_of(object_model(*old(root)), Seq::<char>::empty()),
{
    let ghost before = object_model(*root);
    proof {
        lemma_keys_differ();
    }
    let mut report = PatchReport {
        content: String::new(),
        changed_is_glic: false,
        changed_variations_country: false,
        changed_variations_permanent_country: false,
    };

    let is_flag = match member(root, "is_glic_eligible") {
        Some(value) => value.is_boolean(),
        None => false,
    };
    if is_flag {
        set_member(root, "is_glic_eligible".to_owned(), bool_value(true));
        report.changed_is_glic = true;
    }

    if has_member(root, "variations_country") {
        set_member(root, "variations_country".to_owned(), string_value("us"));
        report.changed_variations_country = true;
    }

    let is_list = match member(root, "variations_permanent_consistency_country") {
        Some(value) => value.is_array(),
        None => false,
    };
    if is_list {
        let mut codes: Vec<serde_json::Value> = Vec::new();
        codes.push(string_value("us"));
        let list = array_value(codes);
        assert(codes@.map_values(|x: serde_json::Value| crate::json::value_model(x)) =~= seq![
            locale(),
        ]);
        set_member(root, "variations_permanent_consistency_country".to_owned(), list);
        report.changed_variations_permanent_country = true;
    }

    assert(object_model(*root) =~= patched(before));
    report
}

/// Applies the patch to a document given as text: parses it, rejects a root
/// that is no object, rewrites the three members, prints the object again and
/// parses that text once more as a check on itself.
pub fn apply_patches(input: &str) -> (r: AppResult<PatchReport>)
    ensures
        match r {
            Ok(report) => patch_outcome(input@) == Ok::<PatchReportView, Seq<char>>(report@),
            Err(e) => patch_outcome(input@) is Err && e@ == ErrorView::InvalidJson(
                patch_outcome(input@)->Err_0,
            ),
        },
{
    let document = match parse_value(input) {
        Ok(document) => document,
        Err(e) => {
            let why = describe(&e);
            return Err(AppError::InvalidJson(followed_by("Input JSON parsing failed: ", why.as_str())));
        },
    };
    let mut root = match into_object(document) {
        Some(root) => root,
        None => {
            return Err(AppError::InvalidJson("Config file root is not an object".to_owned()));
        },
    };
    let mut report = patch_object(&mut root);
    report.content = match print_object(&root) {
        Ok(content) => content,
        Err(e) => {
            let why = describe(&e);
            return Err(
                AppError::InvalidJson(followed_by("Output JSON serialization failed: ", why.as_str())),
            );
        },
    };
    match parse_value(report.content.as_str()) {
        Ok(_) => Ok(report),
        Err(e) => {
            let why = describe(&e);
            Err(AppError::InvalidJson(followed_by("Generated JSON validation failed: ", why.as_str())))
        },
    }
}

} // verus!
