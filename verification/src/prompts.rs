//! Prompt templates for the text post-formatter. Each builder wraps the
//! transcript in fixed instructions; the contracts pin the exact text.

use vstd::prelude::*;

use crate::llm::FormattingType;

verus! {

/// A prompt of the shape `prefix + text + suffix`.
fn wrap(prefix: &str, text: &str, suffix: &str) -> (r: String)
    ensures
        r@ == prefix@ + text@ + suffix@,
{
    let mut s = prefix.to_owned();
    s.append(text);
    s.append(suffix);
    s
}

/// A prompt of the shape `prefix + text`.
fn wrap2(prefix: &str, text: &str) -> (r: String)
    ensures
        r@ == prefix@ + text@,
{
    let mut s = prefix.to_owned();
    s.append(text);
    s
}

/// Ask for filler words to be removed.
pub fn create_filler_removal_prompt(text: &str) -> (r: String)
    ensures
        r@
            == "Remove filler words (um, uh, like, you know, etc.) from the following text. Only return the cleaned text, nothing else:\n\n"@
            + text@,
{
    wrap2(
        "Remove filler words (um, uh, like, you know, etc.) from the following text. Only return the cleaned text, nothing else:\n\n",
        text,
    )
}

/// Ask for punctuation to be added.
pub fn create_punctuation_prompt(text: &str) -> (r: String)
    ensures
        r@
            == "Add proper punctuation (periods, commas, question marks, etc.) to the following text. Only return the punctuated text, nothing else:\n\n"@
            + text@,
{
    wrap2(
        "Add proper punctuation (periods, commas, question marks, etc.) to the following text. Only return the punctuated text, nothing else:\n\n",
        text,
    )
}

/// Ask for capitalization to be fixed.
pub fn create_capitalization_prompt(text: &str) -> (r: String)
    ensures
        r@
            == "Fix capitalization in the following text. Capitalize proper nouns, sentence starts, and the word 'I'. Only return the corrected text, nothing else:\n\n"@
            + text@,
{
    wrap2(
        "Fix capitalization in the following text. Capitalize proper nouns, sentence starts, and the word 'I'. Only return the corrected text, nothing else:\n\n",
        text,
    )
}

/// Ask for false starts and self-corrections to be removed.
pub fn create_course_correction_prompt(text: &str) -> (r: String)
    ensures
        r@
            == "The following is dictated text where the speaker may have corrected themselves. Remove any false starts or corrections, keeping only the final intended text. Only return the final text, nothing else:\n\n"@
            + text@,
{
    wrap2(
        "The following is dictated text where the speaker may have corrected themselves. Remove any false starts or corrections, keeping only the final intended text. Only return the final text, nothing else:\n\n",
        text,
    )
}

/// Ask for the all-in-one cleanup.
pub fn create_smart_format_prompt(text: &str) -> (r: String)
    ensures
        r@
            == "Clean up the following dictated text by:\n1. Removing filler words (um, uh, like, you know)\n2. Adding proper punctuation\n3. Fixing capitalization\n4. Removing false starts and course corrections\n\nOnly return the cleaned text, nothing else:\n\n"@
            + text@,
{
    wrap2(
        "Clean up the following dictated text by:\n1. Removing filler words (um, uh, like, you know)\n2. Adding proper punctuation\n3. Fixing capitalization\n4. Removing false starts and course corrections\n\nOnly return the cleaned text, nothing else:\n\n",
        text,
    )
}

/// The prompt for one formatting operation.
pub fn formatting_prompt(format_type: &FormattingType, text: &str) -> (r: String)
    ensures
        r@ == (match *format_type {
            FormattingType::RemoveFillers =>
                "Remove filler words (um, uh, like, you know, etc.) from the following text. Only return the cleaned text, nothing else:\n\n"@
                + text@,
            FormattingType::AddPunctuation =>
                "Add proper punctuation (periods, commas, question marks, etc.) to the following text. Only return the punctuated text, nothing else:\n\n"@
                + text@,
            FormattingType::FixCapitalization =>
                "Fix capitalization in the following text. Capitalize proper nouns, sentence starts, and the word 'I'. Only return the corrected text, nothing else:\n\n"@
                + text@,
            FormattingType::CourseCorrection =>
                "The following is dictated text where the speaker may have corrected themselves. Remove any false starts or corrections, keeping only the final intended text. Only return the final text, nothing else:\n\n"@
                + text@,
            FormattingType::SmartFormat =>
                "Clean up the following dictated text by:\n1. Removing filler words (um, uh, like, you know)\n2. Adding proper punctuation\n3. Fixing capitalization\n4. Removing false starts and course corrections\n\nOnly return the cleaned text, nothing else:\n\n"@
                + text@,
        }),
{
    match format_type {
        FormattingType::RemoveFillers => create_filler_removal_prompt(text),
        FormattingType::AddPunctuation => create_punctuation_prompt(text),
        FormattingType::FixCapitalization => create_capitalization_prompt(text),
        FormattingType::CourseCorrection => create_course_correction_prompt(text),
        FormattingType::SmartFormat => create_smart_format_prompt(text),
    }
}

/// The quick cleanup prompt: fillers and punctuation.
pub fn quick_format_prompt(text: &str) -> (r: String)
    ensures
        r@
            == "Clean up this transcribed speech:\n1. Remove filler words (um, uh, like, you know, etc.)\n2. Add proper punctuation (periods, commas, question marks)\n3. Keep the exact wording otherwise\n\nInput: \""@
            + text@ + "\"\n\nOutput (cleaned text only, no extra explanation):"@,
{
    wrap(
        "Clean up this transcribed speech:\n1. Remove filler words (um, uh, like, you know, etc.)\n2. Add proper punctuation (periods, commas, question marks)\n3. Keep the exact wording otherwise\n\nInput: \"",
        text,
        "\"\n\nOutput (cleaned text only, no extra explanation):",
    )
}

/// The standard cleanup prompt: quick plus capitalization.
pub fn standard_format_prompt(text: &str) -> (r: String)
    ensures
        r@
            == "Clean up this transcribed speech:\n1. Remove filler words (um, uh, like, you know, etc.)\n2. Add proper punctuation (periods, commas, question marks)\n3. Fix capitalization (proper nouns, sentence starts, \"I\")\n4. Keep the exact wording otherwise\n\nInput: \""@
            + text@ + "\"\n\nOutput (cleaned text only, no extra explanation):"@,
{
    wrap(
        "Clean up this transcribed speech:\n1. Remove filler words (um, uh, like, you know, etc.)\n2. Add proper punctuation (periods, commas, question marks)\n3. Fix capitalization (proper nouns, sentence starts, \"I\")\n4. Keep the exact wording otherwise\n\nInput: \"",
        text,
        "\"\n\nOutput (cleaned text only, no extra explanation):",
    )
}

/// The smart cleanup prompt: standard plus numbers, dates and false
/// starts.
pub fn smart_format_prompt(text: &str) -> (r: String)
    ensures
        r@
            == "Clean up this transcribed speech intelligently:\n1. Remove filler words (um, uh, like, you know, etc.)\n2. Add proper punctuation (periods, commas, question marks)\n3. Fix capitalization (proper nouns, sentence starts, \"I\")\n4. Format numbers (\"two hundred\" \u{2192} \"200\", \"five PM\" \u{2192} \"5 PM\")\n5. Format dates (\"january first\" \u{2192} \"January 1st\")\n6. Remove false starts and course corrections\n7. Keep the exact wording otherwise\n\nInput: \""@
            + text@ + "\"\n\nOutput (cleaned text only, no extra explanation):"@,
{
    wrap(
        "Clean up this transcribed speech intelligently:\n1. Remove filler words (um, uh, like, you know, etc.)\n2. Add proper punctuation (periods, commas, question marks)\n3. Fix capitalization (proper nouns, sentence starts, \"I\")\n4. Format numbers (\"two hundred\" \u{2192} \"200\", \"five PM\" \u{2192} \"5 PM\")\n5. Format dates (\"january first\" \u{2192} \"January 1st\")\n6. Remove false starts and course corrections\n7. Keep the exact wording otherwise\n\nInput: \"",
        text,
        "\"\n\nOutput (cleaned text only, no extra explanation):",
    )
}

} // verus!
