//! The closed table of compression formats and the classifier over it.
//!
//! A scanner names the format of a region by a tag. Eight tags are known;
//! each has one profile: the suffix of the extracted file and the shell
//! commands that unpack and repack it. Any other tag is an error, never
//! skipped and never guessed at.

use vstd::prelude::*;
use vstd::string::*;
use crate::text::same_text;

verus! {

/// A compression format that the table knows.
#[derive(Clone, Copy, Debug, PartialEq, Eq, Structural)]
pub enum Format {
    Zstd,
    Xz,
    Gzip,
    Bzip2,
    Lz4,
    Lzop,
    Lzma,
    Lzfse,
}

/// What the table holds for one format.
#[derive(Clone, Copy, Debug, PartialEq, Eq)]
pub struct CompressionProfile {
    /// Appended to `vmlinux` to name the extracted file.
    pub suffix: &'static str,
    /// The command that unpacks the extracted file.
    pub decompress_cmd: &'static str,
    /// The command that packs the patched kernel again.
    pub compress_cmd: &'static str,
}

/// A profile as plain text.
pub struct ProfileText {
    pub suffix: Seq<char>,
    pub decompress_cmd: Seq<char>,
    pub compress_cmd: Seq<char>,
}

impl View for CompressionProfile {
    type V = ProfileText;

    open spec fn view(&self) -> ProfileText {
        ProfileText {
            suffix: self.suffix@,
            decompress_cmd: self.decompress_cmd@,
            compress_cmd: self.compress_cmd@,
        }
    }
}

/// A tag that names no format of the table.
#[derive(Clone, Debug, PartialEq, Eq)]
pub struct UnknownFormat {
    /// The tag as the scanner gave it.
    pub tag: String,
}

/// The tag by which a scanner names the format.
pub open spec fn tag_text(format: Format) -> Seq<char> {
    match format {
        Format::Zstd => "zstd"@,
        Format::Xz => "xz"@,
        Format::Gzip => "gzip"@,
        Format::Bzip2 => "bzip2"@,
        Format::Lz4 => "lz4"@,
        Format::Lzop => "lzop"@,
        Format::Lzma => "lzma"@,
        Format::Lzfse => "lzfse"@,
    }
}

/// The format that a tag names, if it names one. The whole tag must match.
pub open spec fn format_of(tag: Seq<char>) -> Option<Format> {
    if tag == "zstd"@ {
        Some(Format::Zstd)
    } else if tag == "xz"@ {
        Some(Format::Xz)
    } else if tag == "gzip"@ {
        Some(Format::Gzip)
    } else if tag == "bzip2"@ {
        Some(Format::Bzip2)
    } else if tag == "lz4"@ {
        Some(Format::Lz4)
    } else if tag == "lzop"@ {
        Some(Format::Lzop)
    } else if tag == "lzma"@ {
        Some(Format::Lzma)
    } else if tag == "lzfse"@ {
        Some(Format::Lzfse)
    } else {
        None
    }
}

/// The table itself: the profile of each format.
pub open spec fn profile_text(format: Format) -> ProfileText {
    match format {
        Format::Zstd => ProfileText {
            suffix: ".zst"@,
            decompress_cmd: "zstd -k -d"@,
            compress_cmd: "zstd -k -19"@,
        },
        Format::Xz => ProfileText {
            suffix: ".xz"@,
            decompress_cmd: "xz -k -d"@,
            compress_cmd: "xz -k -9"@,
        },
        Format::Gzip => ProfileText {
            suffix: ".gz"@,
            decompress_cmd: "gzip -k -d"@,
            compress_cmd: "gzip -k -9"@,
        },
        Format::Bzip2 => ProfileText {
            suffix: ".bz2"@,
            decompress_cmd: "bzip2 -k -d"@,
            compress_cmd: "bzip2 -k -9"@,
        },
        Format::Lz4 => ProfileText {
            suffix: ".lz4"@,
            decompress_cmd: "lz4 -k -d"@,
            compress_cmd: "lz4 -k -9"@,
        },
        Format::Lzop => ProfileText {
            suffix: ".lzo"@,
            decompress_cmd: "lzop -k -d"@,
            compress_cmd: "lzop -k -9"@,
        },
        Format::Lzma => ProfileText {
            suffix: ".lzma"@,
            decompress_cmd: "lzma -k -d"@,
            compress_cmd: "lzma -k -9"@,
        },
        Format::Lzfse => ProfileText {
            suffix: ".lzfse"@,
            decompress_cmd: "lzfse -decode -o vmlinux -i"@,
            compress_cmd: "lzfse -encode -o vmlinux.lzfse -i"@,
        },
    }
}

/// What classifying a tag gives: the profile of the format it names, or the
/// tag itself back as an error.
pub open spec fn classified(tag: Seq<char>) -> Result<ProfileText, Seq<char>> {
    match format_of(tag) {
        Some(format) => Ok(profile_text(format)),
        None => Err(tag),
    }
}

/// Makes the characters of the eight tags known.
proof fn lemma_tags_revealed()
    ensures
        "zstd"@ =~= seq!['z', 's', 't', 'd'],
        "xz"@ =~= seq!['x', 'z'],
        "gzip"@ =~= seq!['g', 'z', 'i', 'p'],
        "bzip2"@ =~= seq!['b', 'z', 'i', 'p', '2'],
        "lz4"@ =~= seq!['l', 'z', '4'],
        "lzop"@ =~= seq!['l', 'z', 'o', 'p'],
        "lzma"@ =~= seq!['l', 'z', 'm', 'a'],
        "lzfse"@ =~= seq!['l', 'z', 'f', 's', 'e'],
{
    reveal_strlit("zstd");
    reveal_strlit("xz");
    reveal_strlit("gzip");
    reveal_strlit("bzip2");
    reveal_strlit("lz4");
    reveal_strlit("lzop");
    reveal_strlit("lzma");
    reveal_strlit("lzfse");
}

/// Every format is found again from its own tag: no two formats share one.
pub proof fn lemma_tag_names_its_format(format: Format)
    ensures
        format_of(tag_text(format)) == Some(format),
{
    lemma_tags_revealed();
    let tag = tag_text(format);
    assert(tag.len() >= 2);
    match format {
        Format::Zstd => {},
        Format::Xz => {
            assert(tag.len() == 2);
        },
        Format::Gzip => {
            assert(tag[0] == 'g');
        },
        Format::Bzip2 => {
            assert(tag[0] == 'b');
        },
        Format::Lz4 => {
            assert(tag[0] == 'l' && tag.len() == 3);
        },
        Format::Lzop => {
            assert(tag[0] == 'l' && tag[2] == 'o' && tag.len() == 4);
        },
        Format::Lzma => {
            assert(tag[0] == 'l' && tag[2] == 'm' && tag.len() == 4);
        },
        Format::Lzfse => {
            assert(tag[0] == 'l' && tag.len() == 5);
        },
    }
}

/// A tag names a format exactly when it is that format's tag, whole and in
/// the same case.
pub proof fn lemma_format_of_exact(tag: Seq<char>, format: Format)
    ensures
        format_of(tag) == Some(format) <==> tag == tag_text(format),
{
    if tag == tag_text(format) {
        lemma_tag_names_its_format(format);
    }
}

/// Classification succeeds on the eight tags of the table and on nothing
/// else; where it succeeds it gives the profile of the format named, and
/// where it fails it gives the tag back.
pub proof fn lemma_classified_closed(tag: Seq<char>)
    ensures
        classified(tag) is Ok <==> exists|format: Format| tag == tag_text(format),
        forall|format: Format|
            tag == tag_text(format) ==> classified(tag) == Ok::<ProfileText, Seq<char>>(
                profile_text(format),
            ),
        classified(tag) is Err ==> classified(tag) == Err::<ProfileText, Seq<char>>(tag),
{
    assert forall|format: Format| tag == tag_text(format) implies classified(tag) == Ok::<
        ProfileText,
        Seq<char>,
    >(profile_text(format)) by {
        lemma_tag_names_its_format(format);
    }
    if classified(tag) is Ok {
        let format = format_of(tag)->0;
        lemma_format_of_exact(tag, format);
        assert(tag == tag_text(format));
    }
}

impl Format {
    /// The tag of this format.
    pub fn tag(self) -> (tag: &'static str)
        ensures
            tag@ == tag_text(self),
    {
        match self {
            Format::Zstd => "zstd",
            Format::Xz => "xz",
            Format::Gzip => "gzip",
            Format::Bzip2 => "bzip2",
            Format::Lz4 => "lz4",
            Format::Lzop => "lzop",
            Format::Lzma => "lzma",
            Format::Lzfse => "lzfse",
        }
    }

    /// Finds the format that `tag` names. The match is exact and case-sensitive.
    pub fn from_tag(tag: &str) -> (found: Option<Format>)
        ensures
            found == format_of(tag@),
    {
        if same_text(tag, "zstd") {
            Some(Format::Zstd)
        } else if same_text(tag, "xz") {
            Some(Format::Xz)
        } else if same_text(tag, "gzip") {
            Some(Format::Gzip)
        } else if same_text(tag, "bzip2") {
            Some(Format::Bzip2)
        } else if same_text(tag, "lz4") {
            Some(Format::Lz4)
        } else if same_text(tag, "lzop") {
            Some(Format::Lzop)
        } else if same_text(tag, "lzma") {
            Some(Format::Lzma)
        } else if same_text(tag, "lzfse") {
            Some(Format::Lzfse)
        } else {
            None
        }
    }

    /// Looks up the profile of this format.
    pub fn profile(self) -> (profile: CompressionProfile)
        ensures
            profile@ == profile_text(self),
    {
        match self {
            Format::Zstd => CompressionProfile {
                suffix: ".zst",
                decompress_cmd: "zstd -k -d",
                compress_cmd: "zstd -k -19",
            },
            Format::Xz => CompressionProfile {
                suffix: ".xz",
                decompress_cmd: "xz -k -d",
                compress_cmd: "xz -k -9",
            },
            Format::Gzip => CompressionProfile {
                suffix: ".gz",
                decompress_cmd: "gzip -k -d",
                compress_cmd: "gzip -k -9",
            },
            Format::Bzip2 => CompressionProfile {
                suffix: ".bz2",
                decompress_cmd: "bzip2 -k -d",
                compress_cmd: "bzip2 -k -9",
            },
            Format::Lz4 => CompressionProfile {
                suffix: ".lz4",
                decompress_cmd: "lz4 -k -d",
                compress_cmd: "lz4 -k -9",
            },
            Format::Lzop => CompressionProfile {
                suffix: ".lzo",
                decompress_cmd: "lzop -k -d",
                compress_cmd: "lzop -k -9",
            },
            Format::Lzma => CompressionProfile {
                suffix: ".lzma",
                decompress_cmd: "lzma -k -d",
                compress_cmd: "lzma -k -9",
            },
            Format::Lzfse => CompressionProfile {
                suffix: ".lzfse",
                decompress_cmd: "lzfse -decode -o vmlinux -i",
                compress_cmd: "lzfse -encode -o vmlinux.lzfse -i",
            },
        }
    }
}

/// Resolves a scanner's tag to its profile. A tag outside the table is
/// returned in the error, unchanged.
pub fn classify(tag: &str) -> (outcome: Result<CompressionProfile, UnknownFormat>)
    ensures
        match outcome {
            Ok(profile) => classified(tag@) == Ok::<ProfileText, Seq<char>>(profile@),
            Err(unknown) => classified(tag@) == Err::<ProfileText, Seq<char>>(unknown.tag@),
        },
{
    match Format::from_tag(tag) {
        Some(format) => Ok(format.profile()),
        None => Err(UnknownFormat { tag: String::from_str(tag) }),
    }
}

} // verus!
