//! The planner: from one region and its profile to the eight steps that
//! replace the region's payload in place.
//!
//! Every command is text built from the inputs alone. The region's offset and
//! length are written in hexadecimal, so that they can be pasted into `dd`
//! as they stand. Nothing here touches a file.

use vstd::prelude::*;
use vstd::string::*;
use crate::guidance::{patching, patching_commands};
use crate::numeral::{hex_text, to_hex};
use crate::profile::{CompressionProfile, ProfileText};
use crate::text::{lemma_occurs_between, occurs_in};

verus! {

/// One step of a plan.
#[derive(Clone, Debug, PartialEq, Eq)]
pub struct BlueprintStep {
    /// The step's number, from 1.
    pub step: usize,
    /// What the step is for.
    pub description: &'static str,
    /// What to type, or, for the patching step, what to look for.
    pub commands: String,
}

/// A step as plain values.
pub struct StepText {
    pub step: nat,
    pub description: Seq<char>,
    pub commands: Seq<char>,
}

impl View for BlueprintStep {
    type V = StepText;

    open spec fn view(&self) -> StepText {
        StepText {
            step: self.step as nat,
            description: self.description@,
            commands: self.commands@,
        }
    }
}

/// The plan for one region: eight steps, numbered from 1 in order.
#[derive(Clone, Debug, PartialEq, Eq)]
pub struct Blueprint {
    pub steps: Vec<BlueprintStep>,
}

impl View for Blueprint {
    type V = Seq<StepText>;

    open spec fn view(&self) -> Seq<StepText> {
        Seq::new(self.steps@.len(), |i: int| self.steps@[i]@)
    }
}

/// The number of steps in every plan.
pub open spec fn step_count() -> nat {
    8
}

/// A sequence of steps has the shape of a plan: eight of them, the first
/// numbered 1 and each next one numbered one higher.
pub open spec fn numbered(steps: Seq<StepText>) -> bool {
    &&& steps.len() == step_count()
    &&& forall|i: int| 0 <= i < steps.len() ==> (#[trigger] steps[i]).step == i + 1
}

impl Blueprint {
    /// The plan has eight steps, numbered 1 to 8 in order.
    pub open spec fn well_formed(&self) -> bool {
        numbered(self@)
    }
}

/// Step 1: copy the region `[offset, offset + length)` out of the image.
pub open spec fn extraction_commands(
    dir: Seq<char>,
    file: Seq<char>,
    suffix: Seq<char>,
    offset: nat,
    length: nat,
) -> Seq<char> {
    "$ cd "@ + dir + "\n$ dd if="@ + file + " of=vmlinux"@ + suffix + " ibs=1 skip=$["@ + hex_text(
        offset,
    ) + "] count=$["@ + hex_text(length) + "]"@
}

/// Step 2: unpack the extracted file.
pub open spec fn decompression_commands(decompress_cmd: Seq<char>, suffix: Seq<char>) -> Seq<char> {
    "$ "@ + decompress_cmd + " vmlinux"@ + suffix
}

/// Step 3: keep copies of the unpacked kernel and of the image.
pub open spec fn backup_commands(file: Seq<char>) -> Seq<char> {
    "$ cp vmlinux vmlinux.orig\n$ cp "@ + file + " "@ + file + ".orig"@
}

/// Step 5: pack the patched kernel again.
pub open spec fn recompression_commands(compress_cmd: Seq<char>) -> Seq<char> {
    "$ "@ + compress_cmd + " vmlinux"@
}

/// Step 6: measure the new payload. It must not be larger than the region it
/// goes back into, or it would overwrite what follows the region.
pub open spec fn size_check_commands(suffix: Seq<char>, length: nat) -> Seq<char> {
    "$ wc -c vmlinux"@ + suffix
        + " | awk '{printf \"0x%x\\n\", $1}'\n\n# ----------------- Do This Before Proceeding ----------------- #\n\u{2514}\u{2500}\u{2500} Output must be <= "@
        + hex_text(length)
        + "\n\u{2514}\u{2500}\u{2500} Else, recompress again with more aggressive parameters."@
}

/// Step 7: fill the region with zero bytes, so that nothing of the old
/// payload is left behind a shorter new one.
pub open spec fn zeroing_commands(file: Seq<char>, offset: nat, length: nat) -> Seq<char> {
    "$ dd if=/dev/zero of="@ + file + " bs=1 seek=$["@ + hex_text(offset) + "] count=$["@
        + hex_text(length) + "] conv=notrunc"@
}

/// Step 8: write the new payload at the region's offset, keeping the image's length.
pub open spec fn overwrite_commands(suffix: Seq<char>, file: Seq<char>, offset: nat) -> Seq<char> {
    "$ dd if=vmlinux"@ + suffix + " of="@ + file + " bs=1 seek=$["@ + hex_text(offset)
        + "] conv=notrunc"@
}

/// Builds the commands of step 1.
pub fn extraction(dir: &str, file: &str, suffix: &str, offset: usize, length: usize) -> (text:
    String)
    ensures
        text@ == extraction_commands(dir@, file@, suffix@, offset as nat, length as nat),
{
    let skip: String = to_hex(offset);
    let count: String = to_hex(length);
    let mut text: String = String::from_str("$ cd ");
    text.append(dir);
    text.append("\n$ dd if=");
    text.append(file);
    text.append(" of=vmlinux");
    text.append(suffix);
    text.append(" ibs=1 skip=$[");
    text.append(skip.as_str());
    text.append("] count=$[");
    text.append(count.as_str());
    text.append("]");
    text
}

/// Builds the commands of step 2.
pub fn decompression(decompress_cmd: &str, suffix: &str) -> (text: String)
    ensures
        text@ == decompression_commands(decompress_cmd@, suffix@),
{
    let mut text: String = String::from_str("$ ");
    text.append(decompress_cmd);
    text.append(" vmlinux");
    text.append(suffix);
    text
}

/// Builds the commands of step 3.
pub fn backup(file: &str) -> (text: String)
    ensures
        text@ == backup_commands(file@),
{
    let mut text: String = String::from_str("$ cp vmlinux vmlinux.orig\n$ cp ");
    text.append(file);
    text.append(" ");
    text.append(file);
    text.append(".orig");
    text
}

/// Builds the commands of step 5.
pub fn recompression(compress_cmd: &str) -> (text: String)
    ensures
        text@ == recompression_commands(compress_cmd@),
{
    let mut text: String = String::from_str("$ ");
    text.append(compress_cmd);
    text.append(" vmlinux");
    text
}

/// Builds the commands of step 6.
pub fn size_check(suffix: &str, length: usize) -> (text: String)
    ensures
        text@ == size_check_commands(suffix@, length as nat),
{
    let limit: String = to_hex(length);
    let mut text: String = String::from_str("$ wc -c vmlinux");
    text.append(suffix);
    text.append(
        " | awk '{printf \"0x%x\\n\", $1}'\n\n# ----------------- Do This Before Proceeding ----------------- #\n\u{2514}\u{2500}\u{2500} Output must be <= ",
    );
    text.append(limit.as_str());
    text.append("\n\u{2514}\u{2500}\u{2500} Else, recompress again with more aggressive parameters.");
    text
}

/// Builds the commands of step 7.
pub fn zeroing(file: &str, offset: usize, length: usize) -> (text: String)
    ensures
        text@ == zeroing_commands(file@, offset as nat, length as nat),
{
    let seek: String = to_hex(offset);
    let count: String = to_hex(length);
    let mut text: String = String::from_str("$ dd if=/dev/zero of=");
    text.append(file);
    text.append(" bs=1 seek=$[");
    text.append(seek.as_str());
    text.append("] count=$[");
    text.append(count.as_str());
    text.append("] conv=notrunc");
    text
}

/// Builds the commands of step 8.
pub fn overwrite(suffix: &str, file: &str, offset: usize) -> (text: String)
    ensures
        text@ == overwrite_commands(suffix@, file@, offset as nat),
{
    let seek: String = to_hex(offset);
    let mut text: String = String::from_str("$ dd if=vmlinux");
    text.append(suffix);
    text.append(" of=");
    text.append(file);
    text.append(" bs=1 seek=$[");
    text.append(seek.as_str());
    text.append("] conv=notrunc");
    text
}

/// The whole plan for the region `[offset, offset + length)` of the image
/// `file` in `dir`, compressed as `profile` says.
pub open spec fn blueprint_text(
    dir: Seq<char>,
    file: Seq<char>,
    offset: nat,
    length: nat,
    profile: ProfileText,
) -> Seq<StepText> {
    seq![
        StepText {
            step: 1,
            description: "Extraction"@,
            commands: extraction_commands(dir, file, profile.suffix, offset, length),
        },
        StepText {
            step: 2,
            description: "Decompression"@,
            commands: decompression_commands(profile.decompress_cmd, profile.suffix),
        },
        StepText {
            step: 3,
            description: "Backup Orignal Files"@,
            commands: backup_commands(file),
        },
        StepText {
            step: 4,
            description: "DIY Vmlinux Patching"@,
            commands: patching_commands(),
        },
        StepText {
            step: 5,
            description: "Recompression"@,
            commands: recompression_commands(profile.compress_cmd),
        },
        StepText {
            step: 6,
            description: "Size Verification"@,
            commands: size_check_commands(profile.suffix, length),
        },
        StepText {
            step: 7,
            description: "Zero Out Original Section"@,
            commands: zeroing_commands(file, offset, length),
        },
        StepText {
            step: 8,
            description: "Overwrite Original Section"@,
            commands: overwrite_commands(profile.suffix, file, offset),
        },
    ]
}

/// Whatever the inputs, a plan has eight steps, numbered 1 to 8 in order.
pub proof fn lemma_blueprint_numbered(
    dir: Seq<char>,
    file: Seq<char>,
    offset: nat,
    length: nat,
    profile: ProfileText,
)
    ensures
        numbered(blueprint_text(dir, file, offset, length, profile)),
{
}

/// The extraction commands show the region's offset and its length, each in
/// hexadecimal exactly as `hex_text` writes it.
pub proof fn lemma_extraction_shows_region(
    dir: Seq<char>,
    file: Seq<char>,
    suffix: Seq<char>,
    offset: nat,
    length: nat,
)
    ensures
        occurs_in(hex_text(offset), extraction_commands(dir, file, suffix, offset, length)),
        occurs_in(hex_text(length), extraction_commands(dir, file, suffix, offset, length)),
{
    let whole = extraction_commands(dir, file, suffix, offset, length);
    let head = "$ cd "@ + dir + "\n$ dd if="@ + file + " of=vmlinux"@ + suffix + " ibs=1 skip=$["@;
    let middle = "] count=$["@;
    let end = "]"@;
    assert(whole =~= head + hex_text(offset) + (middle + hex_text(length) + end));
    lemma_occurs_between(head, hex_text(offset), middle + hex_text(length) + end);
    assert(whole =~= (head + hex_text(offset) + middle) + hex_text(length) + end);
    lemma_occurs_between(head + hex_text(offset) + middle, hex_text(length), end);
}

/// The steps that write to the image name the same region that was
/// extracted: the size check states the region's length as the limit, the
/// zeroing covers offset and length, and the overwrite starts at the offset.
pub proof fn lemma_write_back_shows_region(
    file: Seq<char>,
    suffix: Seq<char>,
    offset: nat,
    length: nat,
)
    ensures
        occurs_in(hex_text(length), size_check_commands(suffix, length)),
        occurs_in(hex_text(offset), zeroing_commands(file, offset, length)),
        occurs_in(hex_text(length), zeroing_commands(file, offset, length)),
        occurs_in(hex_text(offset), overwrite_commands(suffix, file, offset)),
{
    let check = size_check_commands(suffix, length);
    let check_head = "$ wc -c vmlinux"@ + suffix
        + " | awk '{printf \"0x%x\\n\", $1}'\n\n# ----------------- Do This Before Proceeding ----------------- #\n\u{2514}\u{2500}\u{2500} Output must be <= "@;
    let check_end = "\n\u{2514}\u{2500}\u{2500} Else, recompress again with more aggressive parameters."@;
    assert(check =~= check_head + hex_text(length) + check_end);
    lemma_occurs_between(check_head, hex_text(length), check_end);

    let zero = zeroing_commands(file, offset, length);
    let zero_head = "$ dd if=/dev/zero of="@ + file + " bs=1 seek=$["@;
    let zero_middle = "] count=$["@;
    let zero_end = "] conv=notrunc"@;
    assert(zero =~= zero_head + hex_text(offset) + (zero_middle + hex_text(length) + zero_end));
    lemma_occurs_between(zero_head, hex_text(offset), zero_middle + hex_text(length) + zero_end);
    assert(zero =~= (zero_head + hex_text(offset) + zero_middle) + hex_text(length) + zero_end);
    lemma_occurs_between(zero_head + hex_text(offset) + zero_middle, hex_text(length), zero_end);

    let over = overwrite_commands(suffix, file, offset);
    let over_head = "$ dd if=vmlinux"@ + suffix + " of="@ + file + " bs=1 seek=$["@;
    let over_end = "] conv=notrunc"@;
    assert(over =~= over_head + hex_text(offset) + over_end);
    lemma_occurs_between(over_head, hex_text(offset), over_end);
}

/// The patching step is the same in every plan.
pub proof fn lemma_patching_step_fixed(
    dir: Seq<char>,
    file: Seq<char>,
    offset: nat,
    length: nat,
    profile: ProfileText,
)
    ensures
        blueprint_text(dir, file, offset, length, profile)[3].commands == patching_commands(),
        blueprint_text(dir, file, offset, length, profile)[3].step == 4,
{
}

/// Planning twice from the same inputs gives the same plan, step for step
/// and character for character.
pub proof fn lemma_plan_deterministic(
    first: &Blueprint,
    second: &Blueprint,
    dir: Seq<char>,
    file: Seq<char>,
    offset: nat,
    length: nat,
    profile: ProfileText,
)
    requires
        first@ == blueprint_text(dir, file, offset, length, profile),
        second@ == blueprint_text(dir, file, offset, length, profile),
    ensures
        first@ == second@,
        first@.len() == second@.len(),
        forall|i: int| 0 <= i < first@.len() ==> first@[i].commands == second@[i].commands,
{
}

/// Plans the in-place replacement of one region. The plan always has the
/// same eight steps in the same order; only the commands vary, and they vary
/// with the arguments alone.
pub fn plan_blueprint(
    parent_dir: &str,
    filename: &str,
    offset: usize,
    length: usize,
    profile: &CompressionProfile,
) -> (blueprint: Blueprint)
    ensures
        blueprint@ == blueprint_text(
            parent_dir@,
            filename@,
            offset as nat,
            length as nat,
            profile@,
        ),
        blueprint.well_formed(),
{
    let mut steps: Vec<BlueprintStep> = Vec::new();
    steps.push(
        BlueprintStep {
            step: 1,
            description: "Extraction",
            commands: extraction(parent_dir, filename, profile.suffix, offset, length),
        },
    );
    steps.push(
        BlueprintStep {
            step: 2,
            description: "Decompression",
            commands: decompression(profile.decompress_cmd, profile.suffix),
        },
    );
    steps.push(
        BlueprintStep { step: 3, description: "Backup Orignal Files", commands: backup(filename) },
    );
    steps.push(
        BlueprintStep {
            step: 4,
            description: "DIY Vmlinux Patching",
            commands: String::from_str(patching()),
        },
    );
    steps.push(
        BlueprintStep {
            step: 5,
            description: "Recompression",
            commands: recompression(profile.compress_cmd),
        },
    );
    steps.push(
        BlueprintStep {
            step: 6,
            description: "Size Verification",
            commands: size_check(profile.suffix, length),
        },
    );
    steps.push(
        BlueprintStep {
            step: 7,
            description: "Zero Out Original Section",
            commands: zeroing(filename, offset, length),
        },
    );
    steps.push(
        BlueprintStep {
            step: 8,
            description: "Overwrite Original Section",
            commands: overwrite(profile.suffix, filename, offset),
        },
    );
    let blueprint = Blueprint { steps };
    proof {
        let expected = blueprint_text(
            parent_dir@,
            filename@,
            offset as nat,
            length as nat,
            profile@,
        );
        assert(blueprint@.len() == 8);
        assert(blueprint@ =~= expected);
    }
    blueprint
}

} // verus!
