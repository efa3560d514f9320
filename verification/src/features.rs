//! The requirements of a specification, gathered from its feature files.
//!
//! A feature file is a Gherkin document whose feature is named
//! `<identifier> - <title>`. The files are parsed by `gherkin`; the library
//! reads the name of the feature and nothing else.

use crate::document::check_ids;
use crate::document::lemma_prefix_checked;
use crate::document::prefix_errors;
use crate::kind::Spec;
use crate::messages::report;
use crate::messages::texts;
use crate::tables::has_key;
use crate::tables::items_of;
use crate::tables::keys;
use crate::tables::new_requirements;
use crate::tables::requirement_entries;
use crate::tables::requirement_ids;
use crate::tables::Requirements;
use crate::tables::requirements_contain;
use crate::tables::requirements_insert;
use crate::text::extract_identifier;
use crate::text::identifier_of;
use crate::text::same_text;
use vstd::prelude::*;
use vstd::string::StringExecFns;
use vstd::string::StrSliceExecFns;

verus! {

/// `gherkin::ParseError`. Nothing is known of an error but that it can be
/// written out.
#[verifier::external_type_specification]
#[verifier::external_body]
pub struct ExParseError(gherkin::ParseError);

/// The name of the feature that a Gherkin text declares, as `gherkin` reads
/// it in its default language. `None` where the text is not well-formed.
pub uninterp spec fn feature_name(content: Seq<char>) -> Option<Seq<char>>;

/// `gherkin::Feature::parse` with `GherkinEnv::default()`. Whether the text
/// is well-formed, and the name of its feature, are functions of the text
/// alone. Nothing is said of the error.
#[verifier::external_body]
fn parse_feature(content: &str) -> (parsed: Result<String, gherkin::ParseError>)
    ensures
        match parsed {
            Ok(name) => feature_name(content@) == Some(name@),
            Err(_) => feature_name(content@).is_none(),
        },
{
    gherkin::Feature::parse(content, gherkin::GherkinEnv::default()).map(|feature| feature.name)
}

/// Whether a file of the given name is a feature file: its name ends in
/// `.feature`, and has something in front of that.
pub open spec fn names_feature(file_name: Seq<char>) -> bool {
    &&& file_name.len() > ".feature"@.len()
    &&& file_name.subrange(file_name.len() - ".feature"@.len(), file_name.len() as int)
        == ".feature"@
}

/// Whether a file of the given name is a feature file.
pub fn is_feature_file(file_name: &str) -> (feature: bool)
    ensures
        feature == names_feature(file_name@),
{
    let n = file_name.unicode_len();
    let m = ".feature".unicode_len();
    if n <= m {
        return false;
    }
    same_text(file_name.substring_char(n - m, n), ".feature")
}

/// A feature file as it was found: its path, and its text or the message on
/// why it could not be read.
#[derive(Debug)]
pub struct FeatureFile {
    pub path: String,
    pub content: Result<String, String>,
}

/// A feature file that was parsed: its path, its text and the name of its
/// feature. `T` is the type of its texts: `String` in executable code,
/// `Seq<char>` in specifications.
#[derive(Debug)]
pub struct Feature<T> {
    pub path: T,
    pub text: T,
    pub name: T,
}

impl View for Feature<String> {
    type V = Feature<Seq<char>>;

    open spec fn view(&self) -> Feature<Seq<char>> {
        Feature { path: self.path@, text: self.text@, name: self.name@ }
    }
}

/// What came of reading a feature file: the feature, or a message.
pub open spec fn reading_view(reading: Result<Feature<String>, String>) -> Result<
    Feature<Seq<char>>,
    Seq<char>,
> {
    match reading {
        Ok(feature) => Ok(feature@),
        Err(message) => Err(message@),
    }
}

/// What came of reading each of a list of feature files.
pub open spec fn reading_views(readings: Seq<Result<Feature<String>, String>>) -> Seq<
    Result<Feature<Seq<char>>, Seq<char>>,
> {
    readings.map_values(|reading: Result<Feature<String>, String>| reading_view(reading))
}

/// `reading` is what may come of reading `file`. A file that could not be
/// read gives its own message. A well-formed text gives the feature with its
/// name. A text that is not well-formed gives a message, of which nothing
/// more is known.
pub open spec fn is_reading_of(file: FeatureFile, reading: Result<Feature<Seq<char>>, Seq<char>>) -> bool {
    match file.content {
        Err(message) => reading == Err::<Feature<Seq<char>>, Seq<char>>(message@),
        Ok(text) => match feature_name(text@) {
            Some(name) => reading == Ok::<Feature<Seq<char>>, Seq<char>>(
                Feature { path: file.path@, text: text@, name },
            ),
            None => reading.is_err(),
        },
    }
}

/// `readings` is what may come of reading `files`, file by file.
pub open spec fn are_readings_of(
    files: Seq<FeatureFile>,
    readings: Seq<Result<Feature<Seq<char>>, Seq<char>>>,
) -> bool {
    &&& readings.len() == files.len()
    &&& forall|i: int| 0 <= i < files.len() ==> is_reading_of(files[i], #[trigger] readings[i])
}

/// Reads a feature file: parses its text and takes the name of its feature.
pub fn read_feature(file: FeatureFile) -> (reading: Result<Feature<String>, String>)
    ensures
        is_reading_of(file, reading_view(reading)),
{
    let FeatureFile { path, content } = file;
    match content {
        Err(message) => Err(message),
        Ok(text) => match parse_feature(text.as_str()) {
            Ok(name) => Ok(Feature { path, text, name }),
            Err(error) => Err(error.to_string()),
        },
    }
}

/// What is said of a feature named `name`, found in `path`, whose name is
/// not of the form `ID - title`.
pub open spec fn title_form_text(name: Seq<char>, path: Seq<char>) -> Seq<char> {
    "Every feature's title must be of the form \"FS-<id> - <title>\", but "@ + name + " in "@
        + path + " does not."@
}

/// What is said of an identifier that a second feature defines.
pub open spec fn not_unique_text(id: Seq<char>) -> Seq<char> {
    "Headings must be unique, but "@ + id + " is not"@
}

/// The message on a feature whose name is not of the form `ID - title`.
pub fn title_form(name: &str, path: &str) -> (message: String)
    ensures
        message@ == title_form_text(name@, path@),
{
    let mut message = String::from_str(
        "Every feature's title must be of the form \"FS-<id> - <title>\", but ",
    );
    message.append(name);
    message.append(" in ");
    message.append(path);
    message.append(" does not.");
    message
}

/// The message on an identifier that a second feature defines.
pub fn not_unique(id: &str) -> (message: String)
    ensures
        message@ == not_unique_text(id@),
{
    let mut message = String::from_str("Headings must be unique, but ");
    message.append(id);
    message.append(" is not");
    message
}

/// The requirements gathered so far, and the errors found so far.
pub struct Gathered {
    pub entries: Seq<(Seq<char>, Seq<char>)>,
    pub errors: Seq<Seq<char>>,
}

/// What is gathered after one more reading.
///
/// A message is an error. A feature whose name is of the form `ID - title`
/// defines the requirement `ID` with the text of its file, unless an earlier
/// feature has defined it: the first one stays, and the second is an error.
/// Any other feature is an error.
pub open spec fn gather(so_far: Gathered, reading: Result<Feature<Seq<char>>, Seq<char>>) -> Gathered {
    match reading {
        Err(message) => Gathered { errors: so_far.errors.push(message), ..so_far },
        Ok(feature) => match identifier_of(feature.name) {
            None => Gathered {
                errors: so_far.errors.push(title_form_text(feature.name, feature.path)),
                ..so_far
            },
            Some(id) => if has_key(so_far.entries, id) {
                Gathered { errors: so_far.errors.push(not_unique_text(id)), ..so_far }
            } else {
                Gathered { entries: so_far.entries.push((id, feature.text)), ..so_far }
            },
        },
    }
}

/// What is gathered after a list of readings, from the first on.
pub open spec fn gathered(readings: Seq<Result<Feature<Seq<char>>, Seq<char>>>) -> Gathered
    decreases readings.len(),
{
    if readings.len() == 0 {
        Gathered { entries: Seq::empty(), errors: Seq::empty() }
    } else {
        gather(gathered(readings.drop_last()), readings.last())
    }
}

/// No identifier is gathered twice, whatever came of reading the files.
pub proof fn lemma_gathered_once(readings: Seq<Result<Feature<Seq<char>>, Seq<char>>>)
    ensures
        keys(gathered(readings).entries).no_duplicates(),
    decreases readings.len(),
{
    if readings.len() > 0 {
        let before = gathered(readings.drop_last()).entries;
        let after = gathered(readings).entries;
        lemma_gathered_once(readings.drop_last());
        if after != before {
            let id = after.last().0;
            assert(after == before.push(after.last()));
            assert(keys(after) =~= keys(before).push(id));
            assert forall|i: int| 0 <= i < before.len() implies keys(before)[i] != id by {
                assert(before[i].0 == keys(before)[i]);
            }
        }
    }
}

/// Requirements that are gathered without error are sound: no identifier
/// stands twice, and every identifier starts with the prefix of
/// requirements.
pub proof fn lemma_requirements_sound(readings: Seq<Result<Feature<Seq<char>>, Seq<char>>>)
    requires
        requirement_errors(readings).len() == 0,
    ensures
        keys(gathered(readings).entries).no_duplicates(),
        forall|i: int|
            0 <= i < gathered(readings).entries.len() ==> Spec::Requirements.prefix_text().is_prefix_of(
                #[trigger] keys(gathered(readings).entries)[i],
            ),
{
    lemma_gathered_once(readings);
    lemma_prefix_checked(keys(gathered(readings).entries), Spec::Requirements);
}

/// The errors of the requirements: those found while gathering, and then
/// one for each identifier that lacks the prefix of requirements.
pub open spec fn requirement_errors(readings: Seq<Result<Feature<Seq<char>>, Seq<char>>>) -> Seq<
    Seq<char>,
> {
    gathered(readings).errors + prefix_errors(
        keys(gathered(readings).entries),
        Spec::Requirements,
    )
}

/// Gathers the requirements from what came of reading the feature files,
/// and adds the errors to `errors`.
pub fn collect(readings: Vec<Result<Feature<String>, String>>, errors: &mut Vec<String>) -> (found:
    Requirements)
    ensures
        requirement_entries(found) == gathered(reading_views(readings@)).entries,
        texts(final(errors)@) == texts(old(errors)@) + requirement_errors(
            reading_views(readings@),
        ),
{
    let ghost all = reading_views(readings@);
    let ghost before = texts(errors@);
    let mut found = new_requirements();
    let mut readings = readings;
    let ghost mut done: int = 0;
    while readings.len() > 0
        invariant
            0 <= done,
            done + readings.len() == all.len(),
            reading_views(readings@) == all.skip(done),
            requirement_entries(found) == gathered(all.take(done)).entries,
            texts(errors@) == before + gathered(all.take(done)).errors,
        decreases readings.len(),
    {
        assert(all.take(done + 1).drop_last() =~= all.take(done));
        let ghost rest = readings@;
        let reading = readings.remove(0);
        assert(reading_view(reading) == reading_views(rest)[0]);
        assert forall|k: int| 0 <= k < readings@.len() implies reading_views(readings@)[k]
            == all.skip(done + 1)[k] by {
            assert(reading_views(rest)[k + 1] == all.skip(done)[k + 1]);
        }
        match reading {
            Err(message) => {
                report(errors, message);
            },
            Ok(feature) => {
                let Feature { path, text, name } = feature;
                match extract_identifier(name.as_str()) {
                    None => {
                        report(errors, title_form(name.as_str(), path.as_str()));
                    },
                    Some(id) => {
                        if requirements_contain(&found, id) {
                            report(errors, not_unique(id));
                        } else {
                            requirements_insert(&mut found, id.to_string(), text);
                        }
                    },
                }
            },
        }
        proof {
            done = done + 1;
        }
    }
    assert(all.take(done) =~= all);
    let ids = requirement_ids(&found);
    let mut late = check_ids(&items_of(&ids), Spec::Requirements);
    let ghost early = errors@;
    let ghost prefixes = late@;
    errors.append(&mut late);
    assert(texts(errors@) =~= texts(early) + texts(prefixes));
    found
}

/// What is found of the requirements, given what may have come of listing
/// and reading the feature files: the requirements, and the errors.
pub open spec fn found_in(
    files: Result<Vec<FeatureFile>, String>,
    readings: Seq<Result<Feature<Seq<char>>, Seq<char>>>,
) -> Gathered {
    match files {
        Err(message) => Gathered { entries: Seq::empty(), errors: seq![message@] },
        Ok(_) => Gathered {
            entries: gathered(readings).entries,
            errors: requirement_errors(readings),
        },
    }
}

/// `readings` is what may come of reading the feature files that were
/// found. Where they could not be listed, nothing is read.
pub open spec fn may_come_of(
    files: Result<Vec<FeatureFile>, String>,
    readings: Seq<Result<Feature<Seq<char>>, Seq<char>>>,
) -> bool {
    match files {
        Err(_) => readings.len() == 0,
        Ok(files) => are_readings_of(files@, readings),
    }
}

/// Gathers the requirements of a specification from its feature files, and
/// adds the errors to `errors`.
///
/// `files` holds the feature files in the order in which they were found,
/// or the message on why they could not be listed. A file that cannot be
/// read or parsed is an error and is passed over; the others are gathered.
pub fn get_specification(files: Result<Vec<FeatureFile>, String>, errors: &mut Vec<String>) -> (found:
    Requirements)
    ensures
        exists|readings: Seq<Result<Feature<Seq<char>>, Seq<char>>>|
            {
                &&& #[trigger] may_come_of(files, readings)
                &&& requirement_entries(found) == found_in(files, readings).entries
                &&& texts(final(errors)@) == texts(old(errors)@) + found_in(files, readings).errors
            },
{
    match files {
        Err(message) => {
            let ghost readings = Seq::<Result<Feature<Seq<char>>, Seq<char>>>::empty();
            report(errors, message);
            assert(may_come_of(files, readings));
            new_requirements()
        },
        Ok(files_found) => {
            let ghost all = files_found@;
            let mut files_found = files_found;
            let mut readings: Vec<Result<Feature<String>, String>> = Vec::new();
            while files_found.len() > 0
                invariant
                    readings@.len() + files_found.len() == all.len(),
                    files_found@ == all.skip(readings@.len() as int),
                    forall|k: int|
                        0 <= k < readings@.len() ==> is_reading_of(
                            all[k],
                            #[trigger] reading_views(readings@)[k],
                        ),
                decreases files_found.len(),
            {
                let ghost before = readings@;
                let file = files_found.remove(0);
                let reading = read_feature(file);
                readings.push(reading);
                assert forall|k: int| 0 <= k < readings@.len() implies is_reading_of(
                    all[k],
                    #[trigger] reading_views(readings@)[k],
                ) by {
                    if k < before.len() {
                        assert(reading_views(readings@)[k] == reading_views(before)[k]);
                    }
                }
            }
            assert(may_come_of(files, reading_views(readings@)));
            collect(readings, errors)
        },
    }
}

} // verus!
