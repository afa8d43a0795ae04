//! The configuration schema: a location label and an ordered list of sample
//! definitions, together with the defaulting pass that fills unset optional
//! fields.
//!
//! The scale factor `value_multiplier` is a double-precision number in the
//! source document. The library never does arithmetic on it — it only tracks
//! whether it was present and carries it through — so it is held as the
//! IEEE-754 bit pattern (`u64`); `None` means the field was absent from the
//! document.

use vstd::prelude::*;

verus! {

/// Category of the thing being measured; written in the document as the
/// upper-case tag of the variant (`DEVICE`, `ZONE`).
#[derive(Clone, Copy, Debug, PartialEq, Eq, Structural)]
pub enum EntityType {
    Device,
    Zone,
}

/// Kind of physical quantity a sample reports; written in the document as
/// `TEMPERATURE`, `PRESSURE` or `ENERGY`.
#[derive(Clone, Copy, Debug, PartialEq, Eq, Structural)]
pub enum SampleType {
    Temperature,
    Pressure,
    Energy,
}

/// How a sampled value is reported; written in the document as `GAUGE` or
/// `COUNTER`.
#[derive(Clone, Copy, Debug, PartialEq, Eq, Structural)]
pub enum MetricType {
    Gauge,
    Counter,
}

/// One measurement definition.
#[derive(Clone, Debug, PartialEq)]
pub struct SampleConfig {
    pub entity_type: EntityType,
    pub entity_name: String,
    pub sample_type: SampleType,
    pub sample_name: String,
    pub metric_type: MetricType,
    /// IEEE-754 bit pattern of the scale factor; `None` when the document
    /// left it out.
    pub value_multiplier: Option<u64>,
    /// Breadcrumb describing where the value sits in an upstream UI; empty
    /// when the document left it out.
    pub navigation: String,
    pub item: String,
}

/// The whole loaded configuration.
#[derive(Clone, Debug, PartialEq)]
pub struct Config {
    pub location: String,
    pub sample_configs: Vec<SampleConfig>,
}

/// Mathematical model of a [`SampleConfig`].
#[verifier::ext_equal]
pub struct SampleConfigModel {
    pub entity_type: EntityType,
    pub entity_name: Seq<char>,
    pub sample_type: SampleType,
    pub sample_name: Seq<char>,
    pub metric_type: MetricType,
    pub value_multiplier: Option<u64>,
    pub navigation: Seq<char>,
    pub item: Seq<char>,
}

/// Mathematical model of a [`Config`]: the order of `sample_configs` is the
/// document order and is part of the model.
#[verifier::ext_equal]
pub struct ConfigModel {
    pub location: Seq<char>,
    pub sample_configs: Seq<SampleConfigModel>,
}

impl View for SampleConfig {
    type V = SampleConfigModel;

    open spec fn view(&self) -> SampleConfigModel {
        SampleConfigModel {
            entity_type: self.entity_type,
            entity_name: self.entity_name@,
            sample_type: self.sample_type,
            sample_name: self.sample_name@,
            metric_type: self.metric_type,
            value_multiplier: self.value_multiplier,
            navigation: self.navigation@,
            item: self.item@,
        }
    }
}

impl View for Config {
    type V = ConfigModel;

    open spec fn view(&self) -> ConfigModel {
        ConfigModel {
            location: self.location@,
            sample_configs: self.sample_configs@.map_values(|s: SampleConfig| s@),
        }
    }
}

/// Bit pattern of the IEEE-754 double `1.0`: the documented fallback for a
/// scale factor the document leaves out.
pub const DEFAULT_VALUE_MULTIPLIER_BITS: u64 = 0x3FF0_0000_0000_0000;

/// The one fill rule of the defaulting pass: an absent multiplier becomes the
/// default, a present one is kept; no other field changes.
pub open spec fn spec_fill_multiplier(s: SampleConfigModel) -> SampleConfigModel {
    SampleConfigModel {
        value_multiplier: match s.value_multiplier {
            Some(m) => Some(m),
            None => Some(DEFAULT_VALUE_MULTIPLIER_BITS),
        },
        ..s
    }
}

/// What the defaulting pass does to a whole configuration: each entry gets
/// the fill rule, in place, in order.
pub open spec fn spec_set_defaults(c: ConfigModel) -> ConfigModel {
    ConfigModel {
        location: c.location,
        sample_configs: c.sample_configs.map_values(|s: SampleConfigModel| spec_fill_multiplier(s)),
    }
}

/// Holds after the defaulting pass: every entry has a multiplier.
pub open spec fn config_defaulted(c: ConfigModel) -> bool {
    forall|j: int|
        0 <= j < c.sample_configs.len() ==> c.sample_configs[j].value_multiplier is Some
}

impl Config {
    /// Fills every unset optional field with its documented default; today
    /// that is `value_multiplier` alone. Structured as one fill rule per
    /// field so that future defaults are added here and nowhere else.
    pub fn set_defaults(&mut self)
        ensures
            final(self)@ == spec_set_defaults(old(self)@),
    {
        let n = self.sample_configs.len();
        let mut filled: Vec<SampleConfig> = Vec::new();
        let mut i: usize = 0;
        while i < n
            invariant
                *self == *old(self),
                n == self.sample_configs@.len(),
                i <= n,
                filled@.len() == i as int,
                forall|j: int|
                    0 <= j < i ==> filled@[j]@ == spec_fill_multiplier(
                        old(self).sample_configs@[j]@,
                    ),
            decreases n - i,
        {
            let sc = &self.sample_configs[i];
            let multiplier: Option<u64> = match sc.value_multiplier {
                Some(m) => Some(m),
                None => Some(DEFAULT_VALUE_MULTIPLIER_BITS),
            };
            let filled_sc = SampleConfig {
                entity_type: sc.entity_type,
                entity_name: sc.entity_name.clone(),
                sample_type: sc.sample_type,
                sample_name: sc.sample_name.clone(),
                metric_type: sc.metric_type,
                value_multiplier: multiplier,
                navigation: sc.navigation.clone(),
                item: sc.item.clone(),
            };
            filled.push(filled_sc);
            i += 1;
        }
        self.sample_configs = filled;
        proof {
            assert(self@.sample_configs =~= spec_set_defaults(old(self)@).sample_configs);
            assert(self@ =~= spec_set_defaults(old(self)@));
        }
    }
}

/// Law: on a configuration whose every multiplier is explicit, defaulting
/// changes nothing.
pub proof fn lemma_set_defaults_keeps_explicit(c: ConfigModel)
    requires
        forall|j: int|
            0 <= j < c.sample_configs.len() ==> c.sample_configs[j].value_multiplier is Some,
    ensures
        spec_set_defaults(c) == c,
{
    assert forall|j: int|
        0 <= j < c.sample_configs.len() implies spec_set_defaults(c).sample_configs[j]
        == c.sample_configs[j] by {
        assert(spec_fill_multiplier(c.sample_configs[j]) =~= c.sample_configs[j]);
    }
    assert(spec_set_defaults(c).sample_configs =~= c.sample_configs);
    assert(spec_set_defaults(c) =~= c);
}

/// Law: a multiplier the document left out is exactly the default — the bits
/// of `1.0` — after defaulting.
pub proof fn lemma_set_defaults_fills_missing(c: ConfigModel, j: int)
    requires
        0 <= j < c.sample_configs.len(),
        c.sample_configs[j].value_multiplier is None,
    ensures
        spec_set_defaults(c).sample_configs[j].value_multiplier == Some(
            DEFAULT_VALUE_MULTIPLIER_BITS,
        ),
{
}

/// Law: defaulting is idempotent — a second pass over an already-defaulted
/// configuration is a no-op.
pub proof fn lemma_set_defaults_idempotent(c: ConfigModel)
    ensures
        spec_set_defaults(spec_set_defaults(c)) == spec_set_defaults(c),
{
    let once = spec_set_defaults(c);
    assert forall|j: int|
        0 <= j < once.sample_configs.len() implies spec_set_defaults(once).sample_configs[j]
        == once.sample_configs[j] by {
        assert(spec_fill_multiplier(spec_fill_multiplier(c.sample_configs[j]))
            =~= spec_fill_multiplier(c.sample_configs[j]));
    }
    assert(spec_set_defaults(once).sample_configs =~= once.sample_configs);
    assert(spec_set_defaults(once) =~= once);
}

/// Law: whatever the input, the defaulting pass leaves every entry with a
/// multiplier.
pub proof fn lemma_set_defaults_defaulted(c: ConfigModel)
    ensures
        config_defaulted(spec_set_defaults(c)),
{
}

impl EntityType {
    /// Which tag maps to which variant; anything else is rejected.
    pub open spec fn spec_from_tag(tag: Seq<char>) -> Option<EntityType> {
        if tag == "DEVICE"@ {
            Some(EntityType::Device)
        } else if tag == "ZONE"@ {
            Some(EntityType::Zone)
        } else {
            None
        }
    }

    pub fn from_tag(tag: &str) -> (r: Option<EntityType>)
        ensures
            r == Self::spec_from_tag(tag@),
    {
        if str_eq(tag, "DEVICE") {
            Some(EntityType::Device)
        } else if str_eq(tag, "ZONE") {
            Some(EntityType::Zone)
        } else {
            None
        }
    }
}

impl SampleType {
    /// Which tag maps to which variant; anything else is rejected.
    pub open spec fn spec_from_tag(tag: Seq<char>) -> Option<SampleType> {
        if tag == "TEMPERATURE"@ {
            Some(SampleType::Temperature)
        } else if tag == "PRESSURE"@ {
            Some(SampleType::Pressure)
        } else if tag == "ENERGY"@ {
            Some(SampleType::Energy)
        } else {
            None
        }
    }

    pub fn from_tag(tag: &str) -> (r: Option<SampleType>)
        ensures
            r == Self::spec_from_tag(tag@),
    {
        if str_eq(tag, "TEMPERATURE") {
            Some(SampleType::Temperature)
        } else if str_eq(tag, "PRESSURE") {
            Some(SampleType::Pressure)
        } else if str_eq(tag, "ENERGY") {
            Some(SampleType::Energy)
        } else {
            None
        }
    }
}

impl MetricType {
    /// Which tag maps to which variant; anything else is rejected.
    pub open spec fn spec_from_tag(tag: Seq<char>) -> Option<MetricType> {
        if tag == "GAUGE"@ {
            Some(MetricType::Gauge)
        } else if tag == "COUNTER"@ {
            Some(MetricType::Counter)
        } else {
            None
        }
    }

    pub fn from_tag(tag: &str) -> (r: Option<MetricType>)
        ensures
            r == Self::spec_from_tag(tag@),
    {
        if str_eq(tag, "GAUGE") {
            Some(MetricType::Gauge)
        } else if str_eq(tag, "COUNTER") {
            Some(MetricType::Counter)
        } else {
            None
        }
    }
}

/// Equality of two string slices, by way of the `String` equality that vstd
/// specifies.
pub(crate) fn str_eq(a: &str, b: &str) -> (r: bool)
    ensures
        r == (a@ == b@),
{
    let owned_a: String = a.to_owned();
    let owned_b: String = b.to_owned();
    owned_a == owned_b
}

/// The plain values extracted from a document for one entry, before tag
/// mapping: the three tags are still text, and the optional fields still
/// record whether they were present.
#[derive(Clone, Debug, PartialEq)]
pub struct RawSampleConfig {
    pub entity_type: String,
    pub entity_name: String,
    pub sample_type: String,
    pub sample_name: String,
    pub metric_type: String,
    pub value_multiplier: Option<u64>,
    pub navigation: Option<String>,
    pub item: String,
}

/// The plain values extracted from a whole document.
#[derive(Clone, Debug, PartialEq)]
pub struct RawConfig {
    pub location: String,
    pub sample_configs: Vec<RawSampleConfig>,
}

/// Mathematical model of a [`RawSampleConfig`].
#[verifier::ext_equal]
pub struct RawSampleConfigModel {
    pub entity_type: Seq<char>,
    pub entity_name: Seq<char>,
    pub sample_type: Seq<char>,
    pub sample_name: Seq<char>,
    pub metric_type: Seq<char>,
    pub value_multiplier: Option<u64>,
    pub navigation: Option<Seq<char>>,
    pub item: Seq<char>,
}

/// Mathematical model of a [`RawConfig`].
#[verifier::ext_equal]
pub struct RawConfigModel {
    pub location: Seq<char>,
    pub sample_configs: Seq<RawSampleConfigModel>,
}

impl View for RawSampleConfig {
    type V = RawSampleConfigModel;

    open spec fn view(&self) -> RawSampleConfigModel {
        RawSampleConfigModel {
            entity_type: self.entity_type@,
            entity_name: self.entity_name@,
            sample_type: self.sample_type@,
            sample_name: self.sample_name@,
            metric_type: self.metric_type@,
            value_multiplier: self.value_multiplier,
            navigation: match self.navigation {
                Some(ref n) => Some(n@),
                None => None,
            },
            item: self.item@,
        }
    }
}

impl View for RawConfig {
    type V = RawConfigModel;

    open spec fn view(&self) -> RawConfigModel {
        RawConfigModel {
            location: self.location@,
            sample_configs: self.sample_configs@.map_values(|r: RawSampleConfig| r@),
        }
    }
}

/// The field whose tag was not recognised.
#[derive(Clone, Copy, Debug, PartialEq, Eq, Structural)]
pub enum UnknownTag {
    EntityType,
    SampleType,
    MetricType,
}

/// What mapping one extracted entry onto the schema returns: the three tags
/// must be known — the first unknown one, in field order, is the error — an
/// absent navigation becomes empty, and the multiplier is carried through
/// untouched.
pub open spec fn spec_sample_from_raw(raw: RawSampleConfigModel) -> Result<
    SampleConfigModel,
    UnknownTag,
> {
    match EntityType::spec_from_tag(raw.entity_type) {
        None => Err(UnknownTag::EntityType),
        Some(entity_type) => match SampleType::spec_from_tag(raw.sample_type) {
            None => Err(UnknownTag::SampleType),
            Some(sample_type) => match MetricType::spec_from_tag(raw.metric_type) {
                None => Err(UnknownTag::MetricType),
                Some(metric_type) => Ok(
                    SampleConfigModel {
                        entity_type,
                        entity_name: raw.entity_name,
                        sample_type,
                        sample_name: raw.sample_name,
                        metric_type,
                        value_multiplier: raw.value_multiplier,
                        navigation: match raw.navigation {
                            Some(n) => n,
                            None => Seq::<char>::empty(),
                        },
                        item: raw.item,
                    },
                ),
            },
        },
    }
}

/// What mapping a sequence of extracted entries returns: every entry in
/// document order, or the error of the first entry that fails.
pub open spec fn spec_samples_from_raw(raws: Seq<RawSampleConfigModel>) -> Result<
    Seq<SampleConfigModel>,
    UnknownTag,
>
    decreases raws.len(),
{
    if raws.len() == 0 {
        Ok(Seq::<SampleConfigModel>::empty())
    } else {
        match spec_sample_from_raw(raws[0]) {
            Err(t) => Err(t),
            Ok(s) => match spec_samples_from_raw(raws.drop_first()) {
                Err(t) => Err(t),
                Ok(rest) => Ok(seq![s] + rest),
            },
        }
    }
}

/// What mapping a whole extracted document returns.
pub open spec fn spec_config_from_raw(raw: RawConfigModel) -> Result<ConfigModel, UnknownTag> {
    match spec_samples_from_raw(raw.sample_configs) {
        Err(t) => Err(t),
        Ok(samples) => Ok(ConfigModel { location: raw.location, sample_configs: samples }),
    }
}

/// The model of an exec mapping result.
pub open spec fn sample_result_view(r: Result<SampleConfig, UnknownTag>) -> Result<
    SampleConfigModel,
    UnknownTag,
> {
    match r {
        Ok(s) => Ok(s@),
        Err(t) => Err(t),
    }
}

/// The model of an exec mapping result.
pub open spec fn config_result_view(r: Result<Config, UnknownTag>) -> Result<
    ConfigModel,
    UnknownTag,
> {
    match r {
        Ok(c) => Ok(c@),
        Err(t) => Err(t),
    }
}

impl SampleConfig {
    /// Maps one extracted entry onto the schema, exactly as
    /// [`spec_sample_from_raw`] says.
    pub fn from_raw(raw: &RawSampleConfig) -> (r: Result<SampleConfig, UnknownTag>)
        ensures
            sample_result_view(r) == spec_sample_from_raw(raw@),
    {
        let entity_type = match EntityType::from_tag(raw.entity_type.as_str()) {
            Some(t) => t,
            None => {
                return Err(UnknownTag::EntityType);
            },
        };
        let sample_type = match SampleType::from_tag(raw.sample_type.as_str()) {
            Some(t) => t,
            None => {
                return Err(UnknownTag::SampleType);
            },
        };
        let metric_type = match MetricType::from_tag(raw.metric_type.as_str()) {
            Some(t) => t,
            None => {
                return Err(UnknownTag::MetricType);
            },
        };
        let navigation = match &raw.navigation {
            Some(n) => n.clone(),
            None => String::new(),
        };
        Ok(
            SampleConfig {
                entity_type,
                entity_name: raw.entity_name.clone(),
                sample_type,
                sample_name: raw.sample_name.clone(),
                metric_type,
                value_multiplier: raw.value_multiplier,
                navigation,
                item: raw.item.clone(),
            },
        )
    }
}

proof fn lemma_samples_from_raw_snoc(raws: Seq<RawSampleConfigModel>, x: RawSampleConfigModel)
    ensures
        spec_samples_from_raw(raws.push(x)) == (match spec_samples_from_raw(raws) {
            Err(t) => Err::<Seq<SampleConfigModel>, UnknownTag>(t),
            Ok(samples) => match spec_sample_from_raw(x) {
                Err(t) => Err(t),
                Ok(s) => Ok(samples.push(s)),
            },
        }),
    decreases raws.len(),
{
    if raws.len() == 0 {
        assert(raws.push(x)[0] == x);
        assert(raws.push(x).drop_first() =~= Seq::<RawSampleConfigModel>::empty());
        assert(spec_samples_from_raw(Seq::<RawSampleConfigModel>::empty()) == Ok::<
            Seq<SampleConfigModel>,
            UnknownTag,
        >(Seq::<SampleConfigModel>::empty()));
        match spec_sample_from_raw(x) {
            Ok(s) => {
                assert(seq![s] + Seq::<SampleConfigModel>::empty()
                    =~= Seq::<SampleConfigModel>::empty().push(s));
            },
            Err(_) => {},
        }
    } else {
        assert(raws.push(x)[0] == raws[0]);
        assert(raws.push(x).drop_first() =~= raws.drop_first().push(x));
        lemma_samples_from_raw_snoc(raws.drop_first(), x);
        match spec_sample_from_raw(raws[0]) {
            Ok(s0) => {
                match spec_samples_from_raw(raws.drop_first()) {
                    Ok(rest) => {
                        match spec_sample_from_raw(x) {
                            Ok(s) => {
                                assert(seq![s0] + rest.push(s) =~= (seq![s0] + rest).push(s));
                            },
                            Err(_) => {},
                        }
                    },
                    Err(_) => {},
                }
            },
            Err(_) => {},
        }
    }
}

proof fn lemma_samples_from_raw_prefix_err(raws: Seq<RawSampleConfigModel>, j: int)
    requires
        0 <= j <= raws.len(),
        spec_samples_from_raw(raws.subrange(0, j)) is Err,
    ensures
        spec_samples_from_raw(raws) == spec_samples_from_raw(raws.subrange(0, j)),
    decreases raws.len(),
{
    let prefix = raws.subrange(0, j);
    if j == 0 {
        assert(prefix =~= Seq::<RawSampleConfigModel>::empty());
        assert(false);
    } else {
        assert(prefix[0] == raws[0]);
        match spec_sample_from_raw(raws[0]) {
            Err(_) => {},
            Ok(_) => {
                assert(prefix.drop_first() =~= raws.drop_first().subrange(0, j - 1));
                lemma_samples_from_raw_prefix_err(raws.drop_first(), j - 1);
            },
        }
    }
}

impl Config {
    /// Maps a whole extracted document onto the schema, exactly as
    /// [`spec_config_from_raw`] says: every entry in document order, or the
    /// error of the first entry that fails.
    pub fn from_raw(raw: &RawConfig) -> (r: Result<Config, UnknownTag>)
        ensures
            config_result_view(r) == spec_config_from_raw(raw@),
    {
        let n = raw.sample_configs.len();
        let mut samples: Vec<SampleConfig> = Vec::new();
        let mut i: usize = 0;
        proof {
            assert(raw@.sample_configs.subrange(0, 0) =~= Seq::<RawSampleConfigModel>::empty());
            assert(samples@.map_values(|sc: SampleConfig| sc@) =~= Seq::<
                SampleConfigModel,
            >::empty());
            assert(spec_samples_from_raw(Seq::<RawSampleConfigModel>::empty()) == Ok::<
                Seq<SampleConfigModel>,
                UnknownTag,
            >(Seq::<SampleConfigModel>::empty()));
        }
        while i < n
            invariant
                n == raw.sample_configs@.len(),
                i <= n,
                samples@.len() == i as int,
                spec_samples_from_raw(raw@.sample_configs.subrange(0, i as int)) == Ok::<
                    Seq<SampleConfigModel>,
                    UnknownTag,
                >(samples@.map_values(|s: SampleConfig| s@)),
            decreases n - i,
        {
            let ghost prefix = raw@.sample_configs.subrange(0, i as int);
            let ghost next = raw@.sample_configs[i as int];
            proof {
                lemma_samples_from_raw_snoc(prefix, next);
                assert(raw@.sample_configs.subrange(0, i as int + 1) =~= prefix.push(next));
                assert(next == raw.sample_configs@[i as int]@);
            }
            match SampleConfig::from_raw(&raw.sample_configs[i]) {
                Ok(s) => {
                    let ghost samples_before = samples@;
                    let ghost s_view = s@;
                    samples.push(s);
                    proof {
                        assert(samples@ == samples_before.push(samples@[i as int]));
                        assert(samples@.map_values(|sc: SampleConfig| sc@)
                            =~= samples_before.map_values(|sc: SampleConfig| sc@).push(s_view));
                    }
                },
                Err(t) => {
                    proof {
                        lemma_samples_from_raw_prefix_err(raw@.sample_configs, i as int + 1);
                    }
                    return Err(t);
                },
            }
            i += 1;
        }
        proof {
            assert(raw@.sample_configs.subrange(0, n as int) =~= raw@.sample_configs);
        }
        Ok(Config { location: raw.location.clone(), sample_configs: samples })
    }
}

} // verus!
