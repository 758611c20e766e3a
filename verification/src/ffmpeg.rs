//! The command line of the transcoder: a codec profile is a template of
//! arguments, and each `%name` in it is a placeholder to be filled in.
use crate::config::{CodecConfig, FFmpegConfig};
use crate::text::{owned_texts, str_eq, texts};
use std::sync::Arc;
use vstd::prelude::*;
use vstd::string::StringExecFns;

verus! {

/// How the placeholder called `name` is written in a template.
pub open spec fn placeholder(name: Seq<char>) -> Seq<char> {
    seq!['%'] + name
}

/// `p` is the position of the first item of `items` that equals `key`.
pub open spec fn first_at(items: Seq<Seq<char>>, key: Seq<char>, p: int) -> bool {
    &&& 0 <= p < items.len()
    &&& items[p] == key
    &&& forall|j: int| 0 <= j < p ==> items[j] != key
}

/// The position of the first item of `items` that equals `key`; meaningful
/// only where `items` contains `key`.
pub open spec fn first_index(items: Seq<Seq<char>>, key: Seq<char>) -> int {
    choose|p: int| first_at(items, key, p)
}

/// The template `args` after the placeholder `name` has been given the value
/// `val`: its first occurrence is replaced, and a template without the
/// placeholder stays as it is.
pub open spec fn filled(args: Seq<Seq<char>>, name: Seq<char>, val: Seq<char>) -> Seq<Seq<char>> {
    if args.contains(placeholder(name)) {
        args.update(first_index(args, placeholder(name)), val)
    } else {
        args
    }
}

/// The names that could not be set so far, after trying to set `name`.
pub open spec fn missed(
    args: Seq<Seq<char>>,
    unset: Seq<Seq<char>>,
    name: Seq<char>,
) -> Seq<Seq<char>> {
    if args.contains(placeholder(name)) {
        unset
    } else {
        unset.push(name)
    }
}

/// The default profile's template with every placeholder of a streaming
/// request filled in for the source `file`.
pub open spec fn resolved(template: Seq<Seq<char>>, file: Seq<char>) -> Seq<Seq<char>> {
    filled(
        filled(
            filled(filled(filled(template, "ss"@, "0"@), "i"@, file), "f"@, "mp4"@),
            "vcodec"@,
            "copy"@,
        ),
        "acodec"@,
        "copy"@,
    )
}

/// The placeholders of a streaming request that the template lacks, in the
/// order in which they are tried.
pub open spec fn unresolved(template: Seq<Seq<char>>, file: Seq<char>) -> Seq<Seq<char>> {
    let a0 = template;
    let u0 = Seq::<Seq<char>>::empty();
    let a1 = filled(a0, "ss"@, "0"@);
    let u1 = missed(a0, u0, "ss"@);
    let a2 = filled(a1, "i"@, file);
    let u2 = missed(a1, u1, "i"@);
    let a3 = filled(a2, "f"@, "mp4"@);
    let u3 = missed(a2, u2, "f"@);
    let a4 = filled(a3, "vcodec"@, "copy"@);
    let u4 = missed(a3, u3, "vcodec"@);
    missed(a4, u4, "acodec"@)
}

/// If `items` contains `key`, `first_index` is where it first occurs.
pub proof fn lemma_first_index(items: Seq<Seq<char>>, key: Seq<char>)
    requires
        items.contains(key),
    ensures
        first_at(items, key, first_index(items, key)),
    decreases items.len(),
{
    let w = choose|i: int| 0 <= i < items.len() && items[i] == key;
    lemma_first_before(items, key, w);
}

/// An occurrence of `key` at `w` has a first occurrence at or before it.
proof fn lemma_first_before(items: Seq<Seq<char>>, key: Seq<char>, w: int)
    requires
        0 <= w < items.len(),
        items[w] == key,
    ensures
        exists|p: int| first_at(items, key, p),
    decreases w,
{
    if forall|j: int| 0 <= j < w ==> items[j] != key {
        assert(first_at(items, key, w));
    } else {
        let j = choose|j: int| 0 <= j < w && items[j] == key;
        lemma_first_before(items, key, j);
    }
}

/// Where no codec has two profiles, a profile is found wherever it stands:
/// the place of a codec's profile is the first place of the codec.
pub proof fn lemma_profile_is_unique(config: FFmpegConfig, codec: Seq<char>, i: int)
    requires
        config.wf(),
        0 <= i < config.codecs@.len(),
        config.codecs@[i].0@ == codec,
    ensures
        config.codec_names().contains(codec),
        first_index(config.codec_names(), codec) == i,
{
    let names = config.codec_names();
    assert(names[i] == codec);
    lemma_first_index(names, codec);
    let p = first_index(names, codec);
    if p < i {
        assert(config.codecs@[p].0@ == names[p]);
    }
}

impl FFmpegConfig {
    /// The codec identifiers, in the order of the profiles.
    pub open spec fn codec_names(&self) -> Seq<Seq<char>> {
        Seq::new(self.codecs@.len(), |i: int| self.codecs@[i].0@)
    }

    /// No codec identifier has two profiles.
    pub open spec fn wf(&self) -> bool {
        forall|i: int, j: int|
            0 <= i < j < self.codecs@.len() ==> self.codecs@[i].0@ != self.codecs@[j].0@
    }

    /// The profile of `codec`: the first one registered under that
    /// identifier, or `None` where there is none.
    pub fn profile(&self, codec: &str) -> (found: Option<&CodecConfig>)
        ensures
            match found {
                Some(c) => self.codec_names().contains(codec@) && *c == self.codecs@[first_index(
                    self.codec_names(),
                    codec@,
                )].1,
                None => !self.codec_names().contains(codec@),
            },
    {
        let mut i: usize = 0;
        while i < self.codecs.len()
            invariant
                i <= self.codecs@.len(),
                forall|j: int| 0 <= j < i ==> self.codec_names()[j] != codec@,
            decreases self.codecs@.len() - i,
        {
            if str_eq(self.codecs[i].0.as_str(), codec) {
                proof {
                    assert(self.codec_names()[i as int] == codec@);
                    assert(first_at(self.codec_names(), codec@, i as int));
                    lemma_first_index(self.codec_names(), codec@);
                }
                return Some(&self.codecs[i].1);
            }
            i += 1;
        }
        None
    }
}

/// A template of arguments that is being filled in.
pub struct ArgBuilder<'a> {
    args: Vec<&'a str>,
    unset: Vec<String>,
}

impl<'a> ArgBuilder<'a> {
    /// The arguments as they stand.
    pub closed spec fn args(&self) -> Seq<Seq<char>> {
        texts(self.args@)
    }

    /// The names that were given a value although the template has no
    /// placeholder for them, oldest first.
    pub closed spec fn unset(&self) -> Seq<Seq<char>> {
        owned_texts(self.unset@)
    }

    /// Starts from the template `args`.
    pub fn new(args: Vec<&'a str>) -> (builder: ArgBuilder<'a>)
        ensures
            builder.args() == texts(args@),
            builder.unset() == Seq::<Seq<char>>::empty(),
    {
        let builder = ArgBuilder { args, unset: Vec::new() };
        assert(builder.unset() =~= Seq::<Seq<char>>::empty());
        builder
    }

    /// Gives the placeholder `%name` the value `val`. Its first occurrence is
    /// replaced; where the template has none, the arguments stay as they are
    /// and `name` is recorded as unset.
    pub fn with(self, name: &str, val: &'a str) -> (builder: ArgBuilder<'a>)
        ensures
            builder.args() == filled(self.args(), name@, val@),
            builder.unset() == missed(self.args(), self.unset(), name@),
    {
        let mut this = self;
        let search = String::from_str("%").concat(name);
        proof {
            reveal_strlit("%");
            assert(search@ =~= placeholder(name@));
        }
        let ghost before = this.args();
        let ghost unset_before = this.unset();
        let mut i: usize = 0;
        while i < this.args.len()
            invariant
                i <= this.args@.len(),
                this.args() == before,
                this.unset() == unset_before,
                before == self.args(),
                unset_before == self.unset(),
                search@ == placeholder(name@),
                forall|j: int| 0 <= j < i ==> before[j] != search@,
            decreases this.args@.len() - i,
        {
            if str_eq(this.args[i], search.as_str()) {
                proof {
                    assert(before[i as int] == search@);
                    assert(first_at(before, search@, i as int));
                    lemma_first_index(before, search@);
                }
                this.args.set(i, val);
                assert(this.args() =~= before.update(i as int, val@));
                assert(this.unset() =~= unset_before);
                return this;
            }
            i += 1;
        }
        this.unset.push(String::from_str(name));
        assert(this.unset() =~= unset_before.push(name@));
        assert(this.args() =~= before);
        this
    }

    /// The arguments, ready to be handed to the process.
    pub fn build(self) -> (args: Vec<&'a str>)
        ensures
            texts(args@) == self.args(),
    {
        self.args
    }

    /// The names that could not be set, oldest first: each is a warning
    /// about the configuration, and none stops the request.
    pub fn unresolved(&self) -> (names: &Vec<String>)
        ensures
            owned_texts(names@) == self.unset(),
    {
        &self.unset
    }
}

/// The transcoder, as configured.
pub struct FFmpeg {
    config: Arc<FFmpegConfig>,
}

impl FFmpeg {
    /// The settings this transcoder was made with.
    pub closed spec fn config(&self) -> FFmpegConfig {
        *self.config
    }

    /// The template of the default profile, `*`; meaningful only where the
    /// settings have one.
    pub open spec fn template(&self) -> Seq<Seq<char>> {
        owned_texts(
            self.config().codecs@[first_index(self.config().codec_names(), "*"@)].1.args@,
        )
    }

    /// Whether the settings have a default profile.
    pub open spec fn has_default(&self) -> bool {
        self.config().codec_names().contains("*"@)
    }

    /// The transcoder with the settings `config`.
    pub fn new(config: Arc<FFmpegConfig>) -> (ffmpeg: FFmpeg)
        ensures
            ffmpeg.config() == *config,
    {
        FFmpeg { config }
    }

    /// The path of the transcoder's binary.
    pub fn bin(&self) -> (bin: &str)
        ensures
            bin@ == self.config().bin@,
    {
        self.config.bin.as_str()
    }

    /// A builder over the template of the default profile, or `None` where
    /// the settings have no default profile.
    pub fn build_args(&self) -> (builder: Option<ArgBuilder<'_>>)
        ensures
            builder is Some <==> self.has_default(),
            builder matches Some(b) ==> b.args() == self.template() && b.unset()
                == Seq::<Seq<char>>::empty(),
    {
        match self.config.profile("*") {
            None => None,
            Some(profile) => {
                let mut args: Vec<&str> = Vec::new();
                let mut i: usize = 0;
                while i < profile.args.len()
                    invariant
                        i <= profile.args@.len(),
                        args@.len() == i,
                        forall|j: int| 0 <= j < i ==> args@[j]@ == profile.args@[j]@,
                    decreases profile.args@.len() - i,
                {
                    args.push(profile.args[i].as_str());
                    i += 1;
                }
                assert(texts(args@) =~= owned_texts(profile.args@));
                Some(ArgBuilder::new(args))
            },
        }
    }

    /// The arguments for streaming `file`: the default profile with seek
    /// offset, input, output format and both codecs filled in. `None` where
    /// the settings have no default profile.
    pub fn transcode_args<'a>(&'a self, file: &'a str) -> (builder: Option<ArgBuilder<'a>>)
        ensures
            builder is Some <==> self.has_default(),
            builder matches Some(b) ==> b.args() == resolved(self.template(), file@) && b.unset()
                == unresolved(self.template(), file@),
    {
        match self.build_args() {
            None => None,
            Some(builder) => Some(
                builder.with("ss", "0").with("i", file).with("f", "mp4").with(
                    "vcodec",
                    "copy",
                ).with("acodec", "copy"),
            ),
        }
    }
}

} // verus!
