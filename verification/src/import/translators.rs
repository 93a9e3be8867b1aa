use vstd::prelude::*;
use crate::text::{concat2, concat3, string_views};

verus! {

/// What a translator file says of one translator.
#[derive(Debug, Clone)]
pub struct TranslatorMetadata {
    pub slug: String,
    pub full_name: String,
    pub language_code: String,
    pub description: Option<String>,
    pub copyright_holder: Option<String>,
    pub license: Option<String>,
    pub website: Option<String>,
    pub version: Option<String>,
    pub translation_file: String,
}

/// A translator file: the translators it lists.
#[derive(Debug)]
pub struct TranslatorImportFile {
    pub translators: Vec<TranslatorMetadata>,
}

/// The translation of one verse, footnotes marked `[[...]]`.
#[derive(Debug)]
pub struct VerseTranslationEntry {
    pub t: String,
}

/// The tally of an import of translators.
#[derive(Debug)]
pub struct TranslatorImportStats {
    pub translators_imported: usize,
    pub translations_imported: usize,
    pub errors: Vec<String>,
}

/// The message for a translator that could not be imported.
pub open spec fn failure_message(full_name: Seq<char>, error: Seq<char>) -> Seq<char> {
    "Failed to import translator '"@ + full_name + "': "@ + error
}

impl TranslatorImportStats {
    /// An empty tally.
    pub fn new() -> (r: Self)
        ensures
            r.translators_imported == 0,
            r.translations_imported == 0,
            r.errors@.len() == 0,
    {
        TranslatorImportStats { translators_imported: 0, translations_imported: 0, errors: Vec::new() }
    }

    /// Counts a translator imported with `translations` verse translations.
    pub fn record_import(&mut self, translations: usize)
        requires
            old(self).translators_imported < usize::MAX,
            old(self).translations_imported + translations <= usize::MAX,
        ensures
            final(self).translators_imported == old(self).translators_imported + 1,
            final(self).translations_imported == old(self).translations_imported + translations,
            final(self).errors@ == old(self).errors@,
    {
        self.translators_imported = self.translators_imported + 1;
        self.translations_imported = self.translations_imported + translations;
    }

    /// Records why a translator could not be imported.
    pub fn record_failure(&mut self, full_name: &str, error: &str)
        ensures
            final(self).translators_imported == old(self).translators_imported,
            final(self).translations_imported == old(self).translations_imported,
            string_views(final(self).errors@) == string_views(old(self).errors@).push(
                failure_message(full_name@, error@),
            ),
    {
        let a = concat3("Failed to import translator '", full_name, "': ");
        let m = concat2(a.as_str(), error);
        let ghost before = self.errors@;
        self.errors.push(m);
        assert(string_views(self.errors@) =~= string_views(before).push(failure_message(full_name@, error@)));
    }
}

/// The message for a translator whose language is unknown.
pub fn missing_language_message(language_code: &str) -> (r: String)
    ensures
        r@ == "Language '"@ + language_code@ + "' not found. Please import languages first."@,
{
    concat3("Language '", language_code, "' not found. Please import languages first.")
}

} // verus!
