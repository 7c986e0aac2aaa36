//! Runtime codec registry for enabling and disabling formats.

use vstd::prelude::*;
use crate::format::ImageFormat;

verus! {

/// The six formats in the order in which sets list them.
pub open spec fn all_formats() -> Seq<ImageFormat> {
    seq![
        ImageFormat::Jpeg,
        ImageFormat::WebP,
        ImageFormat::Gif,
        ImageFormat::Png,
        ImageFormat::Avif,
        ImageFormat::Jxl,
    ]
}

/// The flag bit that stands for `format`.
pub open spec fn format_bit(format: ImageFormat) -> u8 {
    match format {
        ImageFormat::Jpeg => 1,
        ImageFormat::WebP => 2,
        ImageFormat::Gif => 4,
        ImageFormat::Png => 8,
        ImageFormat::Avif => 16,
        ImageFormat::Jxl => 32,
    }
}

proof fn lemma_flag_ops(x: u8, b: u8, c: u8)
    by (bit_vector)
    requires
        b == 1 || b == 2 || b == 4 || b == 8 || b == 16 || b == 32,
        c == 1 || c == 2 || c == 4 || c == 8 || c == 16 || c == 32,
    ensures
        ((x | b) & c != 0) == (b == c || (x & c != 0)),
        ((x & !b) & c != 0) == (b != c && (x & c != 0)),
        0u8 & c == 0,
{
}

/// Set of image formats, one flag bit per format.
#[derive(Clone, Copy, Debug, PartialEq, Eq, Structural)]
pub struct FormatSet(u8);

impl View for FormatSet {
    type V = Set<ImageFormat>;

    closed spec fn view(&self) -> Set<ImageFormat> {
        Set::new(|f: ImageFormat| self.0 & format_bit(f) != 0)
    }
}

fn bit_of(format: ImageFormat) -> (b: u8)
    ensures
        b == format_bit(format),
{
    match format {
        ImageFormat::Jpeg => 1,
        ImageFormat::WebP => 2,
        ImageFormat::Gif => 4,
        ImageFormat::Png => 8,
        ImageFormat::Avif => 16,
        ImageFormat::Jxl => 32,
    }
}

impl FormatSet {
    /// The base formats: JPEG, WebP, GIF and PNG.
    pub open spec fn spec_all_compiled() -> Set<ImageFormat> {
        set![ImageFormat::Jpeg, ImageFormat::WebP, ImageFormat::Gif, ImageFormat::Png]
    }

    /// The formats that can be decoded: the base formats, AVIF and JPEG XL.
    pub open spec fn spec_all_compiled_decode() -> Set<ImageFormat> {
        Self::spec_all_compiled().insert(ImageFormat::Avif).insert(ImageFormat::Jxl)
    }

    /// The formats that can be encoded: the base formats, AVIF and JPEG XL.
    pub open spec fn spec_all_compiled_encode() -> Set<ImageFormat> {
        Self::spec_all_compiled().insert(ImageFormat::Avif).insert(ImageFormat::Jxl)
    }

    /// The empty set.
    pub fn empty() -> (r: FormatSet)
        ensures
            r@ == Set::<ImageFormat>::empty(),
    {
        let r = FormatSet(0);
        proof {
            assert forall|f: ImageFormat| !r@.contains(f) by {
                lemma_flag_ops(0, format_bit(f), format_bit(f));
            }
            assert(r@ =~= Set::<ImageFormat>::empty());
        }
        r
    }

    /// The set of the base formats.
    pub fn all_compiled() -> (r: FormatSet)
        ensures
            r@ == Self::spec_all_compiled(),
    {
        let mut r = FormatSet::empty();
        r.insert(ImageFormat::Jpeg);
        r.insert(ImageFormat::WebP);
        r.insert(ImageFormat::Gif);
        r.insert(ImageFormat::Png);
        assert(r@ =~= Self::spec_all_compiled());
        r
    }

    /// The set of the formats that can be decoded.
    pub fn all_compiled_decode() -> (r: FormatSet)
        ensures
            r@ == Self::spec_all_compiled_decode(),
    {
        let mut r = FormatSet::all_compiled();
        r.insert(ImageFormat::Avif);
        r.insert(ImageFormat::Jxl);
        r
    }

    /// The set of the formats that can be encoded.
    pub fn all_compiled_encode() -> (r: FormatSet)
        ensures
            r@ == Self::spec_all_compiled_encode(),
    {
        let mut r = FormatSet::all_compiled();
        r.insert(ImageFormat::Avif);
        r.insert(ImageFormat::Jxl);
        r
    }

    /// Whether `format` is in the set.
    pub fn contains(self, format: ImageFormat) -> (r: bool)
        ensures
            r == self@.contains(format),
    {
        (self.0 & bit_of(format)) != 0
    }

    /// Put `format` into the set.
    pub fn insert(&mut self, format: ImageFormat)
        ensures
            final(self)@ == old(self)@.insert(format),
    {
        let bit = bit_of(format);
        let ghost before = self.0;
        self.0 = self.0 | bit;
        proof {
            assert forall|f: ImageFormat| self@.contains(f) == old(self)@.insert(format).contains(f) by {
                lemma_flag_ops(before, bit, format_bit(f));
            }
            assert(self@ =~= old(self)@.insert(format));
        }
    }

    /// Take `format` out of the set.
    pub fn remove(&mut self, format: ImageFormat)
        ensures
            final(self)@ == old(self)@.remove(format),
    {
        let bit = bit_of(format);
        let ghost before = self.0;
        self.0 = self.0 & !bit;
        proof {
            assert forall|f: ImageFormat| self@.contains(f) == old(self)@.remove(format).contains(f) by {
                lemma_flag_ops(before, bit, format_bit(f));
            }
            assert(self@ =~= old(self)@.remove(format));
        }
    }

    /// The members of the set, in the order of `all_formats`.
    pub fn iter(self) -> (r: Vec<ImageFormat>)
        ensures
            r@ == all_formats().filter(|f: ImageFormat| self@.contains(f)),
    {
        let all = [
            ImageFormat::Jpeg,
            ImageFormat::WebP,
            ImageFormat::Gif,
            ImageFormat::Png,
            ImageFormat::Avif,
            ImageFormat::Jxl,
        ];
        let ghost keep = |f: ImageFormat| self@.contains(f);
        let mut out: Vec<ImageFormat> = Vec::new();
        let mut i: usize = 0;
        assert(all@ =~= all_formats());
        while i < 6
            invariant
                i <= 6,
                all@ == all_formats(),
                keep == (|f: ImageFormat| self@.contains(f)),
                out@ == all_formats().subrange(0, i as int).filter(keep),
            decreases 6 - i,
        {
            let f = all[i];
            proof {
                let head = all_formats().subrange(0, i as int);
                let next = all_formats().subrange(0, i as int + 1);
                assert(next =~= head.push(f));
                assert(next.drop_last() =~= head);
                reveal(Seq::filter);
            }
            if self.contains(f) {
                out.push(f);
            }
            i += 1;
        }
        assert(all_formats().subrange(0, 6) =~= all_formats());
        out
    }
}

/// Runtime codec registry.
///
/// Controls which codecs are enabled for a given operation. A format can be
/// decoded (or encoded) when it is both enabled here and available at all.
#[derive(Clone, Debug)]
pub struct CodecRegistry {
    decode_enabled: FormatSet,
    encode_enabled: FormatSet,
}

impl CodecRegistry {
    /// The formats enabled for decoding.
    pub closed spec fn decode_set(&self) -> Set<ImageFormat> {
        self.decode_enabled@
    }

    /// The formats enabled for encoding.
    pub closed spec fn encode_set(&self) -> Set<ImageFormat> {
        self.encode_enabled@
    }

    /// The formats that are enabled and available for decoding.
    pub open spec fn decodable(&self) -> Set<ImageFormat> {
        self.decode_set().intersect(FormatSet::spec_all_compiled_decode())
    }

    /// The formats that are enabled and available for encoding.
    pub open spec fn encodable(&self) -> Set<ImageFormat> {
        self.encode_set().intersect(FormatSet::spec_all_compiled_encode())
    }

    /// Whether `format` is enabled and available for decoding.
    pub open spec fn spec_can_decode(&self, format: ImageFormat) -> bool {
        self.decodable().contains(format)
    }

    /// Whether `format` is enabled and available for encoding.
    pub open spec fn spec_can_encode(&self, format: ImageFormat) -> bool {
        self.encodable().contains(format)
    }

    /// All available codecs enabled.
    pub fn all() -> (r: CodecRegistry)
        ensures
            r.decode_set() == FormatSet::spec_all_compiled_decode(),
            r.encode_set() == FormatSet::spec_all_compiled_encode(),
    {
        CodecRegistry {
            decode_enabled: FormatSet::all_compiled_decode(),
            encode_enabled: FormatSet::all_compiled_encode(),
        }
    }

    /// Nothing enabled: the caller must opt in.
    pub fn none() -> (r: CodecRegistry)
        ensures
            r.decode_set() == Set::<ImageFormat>::empty(),
            r.encode_set() == Set::<ImageFormat>::empty(),
    {
        CodecRegistry { decode_enabled: FormatSet::empty(), encode_enabled: FormatSet::empty() }
    }

    /// Enable or disable decoding for a format.
    pub fn with_decode(self, format: ImageFormat, enabled: bool) -> (r: CodecRegistry)
        ensures
            r.decode_set() == if enabled {
                self.decode_set().insert(format)
            } else {
                self.decode_set().remove(format)
            },
            r.encode_set() == self.encode_set(),
    {
        let mut r = self;
        if enabled {
            r.decode_enabled.insert(format);
        } else {
            r.decode_enabled.remove(format);
        }
        r
    }

    /// Enable or disable encoding for a format.
    pub fn with_encode(self, format: ImageFormat, enabled: bool) -> (r: CodecRegistry)
        ensures
            r.encode_set() == if enabled {
                self.encode_set().insert(format)
            } else {
                self.encode_set().remove(format)
            },
            r.decode_set() == self.decode_set(),
    {
        let mut r = self;
        if enabled {
            r.encode_enabled.insert(format);
        } else {
            r.encode_enabled.remove(format);
        }
        r
    }

    /// Is this format available and enabled for decoding?
    #[verifier::when_used_as_spec(spec_can_decode)]
    pub fn can_decode(&self, format: ImageFormat) -> (r: bool)
        ensures
            r == self.spec_can_decode(format),
    {
        if !self.decode_enabled.contains(format) {
            return false;
        }
        FormatSet::all_compiled_decode().contains(format)
    }

    /// Is this format available and enabled for encoding?
    #[verifier::when_used_as_spec(spec_can_encode)]
    pub fn can_encode(&self, format: ImageFormat) -> (r: bool)
        ensures
            r == self.spec_can_encode(format),
    {
        if !self.encode_enabled.contains(format) {
            return false;
        }
        FormatSet::all_compiled_encode().contains(format)
    }

    /// Formats that are both available and enabled for decoding, in the
    /// order of `all_formats`.
    pub fn decodable_formats(&self) -> (r: Vec<ImageFormat>)
        ensures
            r@ == all_formats().filter(|f: ImageFormat| self.spec_can_decode(f)),
    {
        let enabled = self.decode_enabled.iter();
        let mut out: Vec<ImageFormat> = Vec::new();
        let mut i: usize = 0;
        let ghost keep = |f: ImageFormat| self.spec_can_decode(f);
        while i < enabled.len()
            invariant
                i <= enabled.len(),
                keep == (|f: ImageFormat| self.spec_can_decode(f)),
                out@ == enabled@.subrange(0, i as int).filter(keep),
            decreases enabled.len() - i,
        {
            let f = enabled[i];
            proof {
                let head = enabled@.subrange(0, i as int);
                let next = enabled@.subrange(0, i as int + 1);
                assert(next =~= head.push(f));
                assert(next.drop_last() =~= head);
                reveal(Seq::filter);
            }
            if self.can_decode(f) {
                out.push(f);
            }
            i += 1;
        }
        proof {
            assert(enabled@.subrange(0, enabled.len() as int) =~= enabled@);
            lemma_filter_twice(all_formats(), |f: ImageFormat| self.decode_enabled@.contains(f), keep);
        }
        out
    }

    /// Formats that are both available and enabled for encoding, in the
    /// order of `all_formats`.
    pub fn encodable_formats(&self) -> (r: Vec<ImageFormat>)
        ensures
            r@ == all_formats().filter(|f: ImageFormat| self.spec_can_encode(f)),
    {
        let enabled = self.encode_enabled.iter();
        let mut out: Vec<ImageFormat> = Vec::new();
        let mut i: usize = 0;
        let ghost keep = |f: ImageFormat| self.spec_can_encode(f);
        while i < enabled.len()
            invariant
                i <= enabled.len(),
                keep == (|f: ImageFormat| self.spec_can_encode(f)),
                out@ == enabled@.subrange(0, i as int).filter(keep),
            decreases enabled.len() - i,
        {
            let f = enabled[i];
            proof {
                let head = enabled@.subrange(0, i as int);
                let next = enabled@.subrange(0, i as int + 1);
                assert(next =~= head.push(f));
                assert(next.drop_last() =~= head);
                reveal(Seq::filter);
            }
            if self.can_encode(f) {
                out.push(f);
            }
            i += 1;
        }
        proof {
            assert(enabled@.subrange(0, enabled.len() as int) =~= enabled@);
            lemma_filter_twice(all_formats(), |f: ImageFormat| self.encode_enabled@.contains(f), keep);
        }
        out
    }
}

impl Default for CodecRegistry {
    fn default() -> (r: CodecRegistry)
        ensures
            r.decode_set() == FormatSet::spec_all_compiled_decode(),
            r.encode_set() == FormatSet::spec_all_compiled_encode(),
    {
        CodecRegistry::all()
    }
}

/// Filtering by `inner` and then by `outer` is filtering by `outer` alone
/// where `outer` implies `inner`.
proof fn lemma_filter_twice(
    s: Seq<ImageFormat>,
    inner: spec_fn(ImageFormat) -> bool, outer: spec_fn(ImageFormat,
) -> bool)
    requires
        forall|f: ImageFormat| #[trigger] outer(f) ==> inner(f),
    ensures
        s.filter(inner).filter(outer) == s.filter(outer),
    decreases s.len(),
{
    reveal(Seq::filter);
    if s.len() > 0 {
        lemma_filter_twice(s.drop_last(), inner, outer);
        let last = s.last();
        if inner(last) {
            let a = s.drop_last().filter(inner);
            assert(a.push(last).drop_last() =~= a);
        }
    }
}

} // verus!
