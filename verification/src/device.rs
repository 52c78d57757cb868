//! Which of a device's configurations to use, and whether it can be used.
use vstd::prelude::*;
use vstd::string::StringExecFns;

verus! {

/// The kinds of samples that a device may have.
#[derive(Clone, Copy, PartialEq, Eq, Debug, Structural)]
pub enum SampleFormat {
    I8,
    I16,
    I24,
    I32,
    I64,
    U8,
    U16,
    U32,
    U64,
    F32,
    F64,
    /// One that nothing here converts from or to.
    Unknown,
}

/// A range of configurations that a device offers.
#[derive(Clone, Copy, PartialEq, Eq, Debug, Structural)]
pub struct ConfigRange {
    /// How many samples make one point in time.
    pub channels: u16,
    /// The highest rate in the range.
    pub max_sample_rate: u32,
    /// How many bytes a sample has.
    pub sample_size: usize,
    /// Whether samples are floating-point numbers.
    pub is_float: bool,
    /// What samples are.
    pub format: SampleFormat,
}

/// By what configurations are ordered.
#[derive(Clone, Copy, PartialEq, Eq, Debug, Structural)]
pub struct SortKey {
    /// 2 for stereo, 1 for mono, and 0 for everything else.
    pub rank: i32,
    /// The highest rate.
    pub sample_rate: u32,
    /// How many bytes a sample has.
    pub sample_size: usize,
    /// Whether samples are floating-point numbers.
    pub is_float: bool,
}

impl SortKey {
    /// Whether this key stands above `other`: by rank, then by rate, then by size, then
    /// by whether samples are floating-point numbers.
    pub open spec fn above(self, other: SortKey) -> bool {
        ||| self.rank > other.rank
        ||| self.rank == other.rank && self.sample_rate > other.sample_rate
        ||| self.rank == other.rank && self.sample_rate == other.sample_rate && self.sample_size
            > other.sample_size
        ||| self.rank == other.rank && self.sample_rate == other.sample_rate && self.sample_size
            == other.sample_size && self.is_float && !other.is_float
    }

    /// Whether this key stands above `other`.
    pub fn is_above(&self, other: &SortKey) -> (r: bool)
        ensures
            r == self.above(*other),
    {
        if self.rank != other.rank {
            self.rank > other.rank
        } else if self.sample_rate != other.sample_rate {
            self.sample_rate > other.sample_rate
        } else if self.sample_size != other.sample_size {
            self.sample_size > other.sample_size
        } else {
            self.is_float && !other.is_float
        }
    }
}

/// How much a number of channels is liked.
pub open spec fn channel_rank(channels: u16) -> i32 {
    if channels == 1 {
        1
    } else if channels == 2 {
        2
    } else {
        0
    }
}

/// The key of a configuration.
pub open spec fn key_of(config: ConfigRange) -> SortKey {
    SortKey {
        rank: channel_rank(config.channels),
        sample_rate: config.max_sample_rate,
        sample_size: config.sample_size,
        is_float: config.is_float,
    }
}

/// The key of a configuration where only channels and rate count.
pub open spec fn short_key_of(config: ConfigRange) -> SortKey {
    SortKey {
        rank: channel_rank(config.channels),
        sample_rate: config.max_sample_rate,
        sample_size: 0,
        is_float: false,
    }
}

/// The keys of configurations, with or without what samples are.
pub open spec fn keys_of(configs: Seq<ConfigRange>, short: bool) -> Seq<SortKey> {
    configs.map_values(
        |config: ConfigRange|
            if short {
                short_key_of(config)
            } else {
                key_of(config)
            },
    )
}

/// Whether `best` is the place of the first of the highest keys.
pub open spec fn is_first_best(keys: Seq<SortKey>, best: int) -> bool {
    &&& 0 <= best < keys.len()
    &&& forall|i: int| 0 <= i < keys.len() ==> !(#[trigger] keys[i]).above(keys[best])
    &&& forall|i: int| 0 <= i < best ==> keys[best].above(#[trigger] keys[i])
}

/// How much a number of channels is liked.
pub fn rank_of(channels: u16) -> (r: i32)
    ensures
        r == channel_rank(channels),
        channels == 2 ==> r == 2,
        channels == 1 ==> r == 1,
        channels != 1 && channels != 2 ==> r == 0,
{
    match channels {
        1 => 1,
        2 => 2,
        _ => 0,
    }
}

/// The key by which configurations are ordered, the highest first.
pub fn config_sort_key(config: &ConfigRange) -> (r: SortKey)
    ensures
        r == key_of(*config),
{
    SortKey {
        rank: rank_of(config.channels),
        sample_rate: config.max_sample_rate,
        sample_size: config.sample_size,
        is_float: config.is_float,
    }
}

/// The key by which configurations are ordered where only channels and rate count.
pub fn short_sort_key(config: &ConfigRange) -> (r: SortKey)
    ensures
        r == short_key_of(*config),
{
    SortKey {
        rank: rank_of(config.channels),
        sample_rate: config.max_sample_rate,
        sample_size: 0,
        is_float: false,
    }
}

/// The place of the configuration that comes first when they are put in order, the
/// highest key first, and those with one key stay as they stand. There is none among
/// none.
pub fn first_config(configs: &Vec<ConfigRange>, short: bool) -> (r: Option<usize>)
    ensures
        r is Some <==> configs@.len() > 0,
        r is Some ==> is_first_best(keys_of(configs@, short), r->0 as int),
{
    if configs.len() == 0 {
        return None;
    }
    let ghost keys = keys_of(configs@, short);
    let mut best: usize = 0;
    let mut i: usize = 1;
    while i < configs.len()
        invariant
            keys == keys_of(configs@, short),
            0 <= best < i <= configs@.len(),
            forall|j: int| 0 <= j < i ==> !(#[trigger] keys[j]).above(keys[best as int]),
            forall|j: int| 0 <= j < best ==> keys[best as int].above(#[trigger] keys[j]),
        decreases configs@.len() - i,
    {
        let above = if short {
            short_sort_key(&configs[i]).is_above(&short_sort_key(&configs[best]))
        } else {
            config_sort_key(&configs[i]).is_above(&config_sort_key(&configs[best]))
        };
        assert(above == keys[i as int].above(keys[best as int]));
        if above {
            best = i;
        }
        i += 1;
    }
    Some(best)
}

/// Which way sound goes.
#[derive(Clone, Copy, PartialEq, Eq, Debug, Structural)]
pub enum Direction {
    Input,
    Output,
}

/// Why a device cannot be used.
#[derive(Clone, Copy, PartialEq, Eq, Debug, Structural)]
pub enum DeviceError {
    /// It offers no configuration.
    NoConfig,
    /// Nothing converts its samples.
    UnknownFormat,
    /// It has neither one channel nor two.
    NotStereoOrMono,
}

/// How a device is going to be used.
#[derive(Clone, Copy, PartialEq, Eq, Debug, Structural)]
pub struct DevicePlan {
    /// Which of the offered configurations is used, with its highest rate.
    pub config: usize,
    /// That rate.
    pub sample_rate: u32,
    /// Whether there are two channels, or one.
    pub stereo: bool,
    /// What samples are.
    pub format: SampleFormat,
}

/// Whether a number of channels is two, or one, or nothing that can be used.
pub fn stereo_of(channels: u16) -> (r: Option<bool>)
    ensures
        r == if channels == 1 {
            Some(false)
        } else if channels == 2 {
            Some(true)
        } else {
            None::<bool>
        },
{
    match channels {
        1 => Some(false),
        2 => Some(true),
        _ => None,
    }
}

/// What using a configuration comes to.
pub open spec fn planned(configs: Seq<ConfigRange>, best: int) -> Result<DevicePlan, DeviceError> {
    let config = configs[best];
    if config.format == SampleFormat::Unknown {
        Err(DeviceError::UnknownFormat)
    } else if config.channels != 1 && config.channels != 2 {
        Err(DeviceError::NotStereoOrMono)
    } else {
        Ok(
            DevicePlan {
                config: best as usize,
                sample_rate: config.max_sample_rate,
                stereo: config.channels == 2,
                format: config.format,
            },
        )
    }
}

/// Chooses among what a device offers. Only the configuration that comes first is
/// looked at: where it cannot be used, no other is tried.
pub fn plan(configs: &Vec<ConfigRange>) -> (r: Result<DevicePlan, DeviceError>)
    ensures
        configs@.len() == 0 ==> r == Err::<DevicePlan, DeviceError>(DeviceError::NoConfig),
        configs@.len() > 0 ==> exists|best: int| #[trigger]
            is_first_best(keys_of(configs@, false), best) && r == planned(configs@, best),
        r matches Ok(plan) ==> {
            &&& plan.config < configs@.len()
            &&& plan.sample_rate == configs@[plan.config as int].max_sample_rate
            &&& plan.format == configs@[plan.config as int].format
            &&& plan.format != SampleFormat::Unknown
            &&& configs@[plan.config as int].channels == if plan.stereo {
                2u16
            } else {
                1u16
            }
            &&& forall|i: int|
                0 <= i < configs@.len() && (#[trigger] configs@[i]).channels == 2 ==> plan.stereo
            &&& forall|i: int|
                0 <= i < configs@.len() && (#[trigger] configs@[i]).channels
                    == configs@[plan.config as int].channels ==> configs@[i].max_sample_rate
                    <= plan.sample_rate
        },
        r is Err && configs@.len() > 0 ==> r->Err_0 != DeviceError::NoConfig,
{
    let best: usize = match first_config(configs, false) {
        Some(best) => best,
        None => {
            return Err(DeviceError::NoConfig);
        },
    };
    let config: ConfigRange = configs[best];
    assert(is_first_best(keys_of(configs@, false), best as int));
    proof {
        law_what_the_best_configuration_is(configs@, false, best as int);
    }
    if config.format == SampleFormat::Unknown {
        return Err(DeviceError::UnknownFormat);
    }
    match stereo_of(config.channels) {
        Some(stereo) => Ok(
            DevicePlan {
                config: best,
                sample_rate: config.max_sample_rate,
                stereo,
                format: config.format,
            },
        ),
        None => Err(DeviceError::NotStereoOrMono),
    }
}

/// What to say where a device has neither one channel nor two.
pub fn channels_message(direction: Direction) -> (r: String)
    ensures
        r@ == match direction {
            Direction::Input => "no input config which is stereo or mono"@,
            Direction::Output => "no output config which is stereo or mono"@,
        },
{
    match direction {
        Direction::Input => String::from_str("no input config which is stereo or mono"),
        Direction::Output => String::from_str("no output config which is stereo or mono"),
    }
}

/// What to say where nothing converts the samples of a device. `name` is what they are
/// called.
pub fn format_message(name: &str) -> (r: String)
    ensures
        r@ == "unknown format: "@ + name@,
{
    let mut r = String::from_str("unknown format: ");
    r.append(name);
    r
}

/// There is one first of the highest keys.
pub proof fn law_first_best_is_unique(keys: Seq<SortKey>, a: int, b: int)
    requires
        is_first_best(keys, a),
        is_first_best(keys, b),
    ensures
        a == b,
{
    if a < b {
        assert(keys[b].above(keys[a]));
    } else if b < a {
        assert(keys[a].above(keys[b]));
    }
}

/// Whether `order` lists the places of `keys`, each once, the highest key first, and
/// those with one key in the order in which they stand.
pub open spec fn is_stable_order(keys: Seq<SortKey>, order: Seq<int>) -> bool {
    &&& order.len() == keys.len()
    &&& forall|i: int| 0 <= i < order.len() ==> 0 <= #[trigger] order[i] < keys.len()
    &&& forall|place: int| 0 <= place < keys.len() ==> #[trigger] order.contains(place)
    &&& forall|i: int, j: int|
        0 <= i < j < order.len() ==> {
            ||| keys[#[trigger] order[i]].above(keys[#[trigger] order[j]])
            ||| keys[order[i]] == keys[order[j]] && order[i] < order[j]
        }
}

/// The first of the highest keys is the one that a stable sort puts in front.
pub proof fn law_stable_sort_puts_first_best_in_front(keys: Seq<SortKey>, order: Seq<int>)
    requires
        keys.len() > 0,
        is_stable_order(keys, order),
    ensures
        is_first_best(keys, order[0]),
{
    let front = order[0];
    assert forall|i: int| 0 <= i < keys.len() implies !(#[trigger] keys[i]).above(keys[front]) by {
        assert(order.contains(i));
        let at = choose|at: int| 0 <= at < order.len() && order[at] == i;
        if at > 0 {
            assert(keys[order[0]].above(keys[order[at]]) || keys[order[0]] == keys[order[at]]);
        }
    }
    assert forall|i: int| 0 <= i < front implies keys[front].above(#[trigger] keys[i]) by {
        assert(order.contains(i));
        let at = choose|at: int| 0 <= at < order.len() && order[at] == i;
        if at > 0 {
            assert(keys[order[0]].above(keys[order[at]]) || order[0] < order[at]);
        }
    }
}

/// Two channels are liked more than one, one more than any other number, and all others
/// alike.
pub proof fn law_two_channels_are_liked_most(channels: u16, other: u16)
    requires
        channels != 1,
        channels != 2,
        other != 1,
        other != 2,
    ensures
        channel_rank(2) > channel_rank(1) > channel_rank(channels),
        channel_rank(channels) == channel_rank(other),
{
}

/// Keys are in a strict order, in which any two that differ have their places: rank goes
/// before rate, rate before size, and size before whether samples are floating-point
/// numbers.
pub proof fn law_keys_are_in_order(a: SortKey, b: SortKey, c: SortKey)
    ensures
        !a.above(a),
        a.above(b) ==> !b.above(a),
        a.above(b) && b.above(c) ==> a.above(c),
        a == b || a.above(b) || b.above(a),
        a.rank > b.rank ==> a.above(b),
        a.rank == b.rank && a.sample_rate > b.sample_rate ==> a.above(b),
        a.rank == b.rank && a.sample_rate == b.sample_rate && a.sample_size > b.sample_size
            ==> a.above(b),
        a.rank == b.rank && a.sample_rate == b.sample_rate && a.sample_size == b.sample_size
            ==> a.above(b) == (a.is_float && !b.is_float),
{
}

/// Configurations have the same key exactly where nothing that counts tells them apart: the
/// liking of their channels and their highest rates, and, where it counts, what samples are.
pub proof fn law_a_key_tells_what_counts(a: ConfigRange, b: ConfigRange)
    ensures
        key_of(a) == key_of(b) <==> {
            &&& (a.channels == 1) == (b.channels == 1)
            &&& (a.channels == 2) == (b.channels == 2)
            &&& a.max_sample_rate == b.max_sample_rate
            &&& a.sample_size == b.sample_size
            &&& a.is_float == b.is_float
        },
        short_key_of(a) == short_key_of(b) <==> {
            &&& (a.channels == 1) == (b.channels == 1)
            &&& (a.channels == 2) == (b.channels == 2)
            &&& a.max_sample_rate == b.max_sample_rate
        },
{
}

/// The configuration that comes first is a stereo one where one is offered, else a mono one
/// where one is offered. Of those it has the highest rate; where more counts, of those again
/// the largest samples, and floating-point numbers if there are. Of what is left it is the
/// first.
pub proof fn law_what_the_best_configuration_is(
    configs: Seq<ConfigRange>,
    short: bool,
    best: int,
)
    requires
        is_first_best(keys_of(configs, short), best),
    ensures
        0 <= best < configs.len(),
        forall|i: int|
            0 <= i < configs.len() ==> {
                let other = #[trigger] configs[i];
                let same_channels = (other.channels == 1) == (configs[best].channels == 1) && (
                other.channels == 2) == (configs[best].channels == 2);
                let same_rate = same_channels && other.max_sample_rate
                    == configs[best].max_sample_rate;
                let same_size = same_rate && other.sample_size == configs[best].sample_size;
                &&& other.channels == 2 ==> configs[best].channels == 2
                &&& other.channels == 1 ==> configs[best].channels == 1 || configs[best].channels
                    == 2
                &&& same_channels ==> other.max_sample_rate <= configs[best].max_sample_rate
                &&& same_rate && !short ==> other.sample_size <= configs[best].sample_size
                &&& same_size && !short && other.is_float ==> configs[best].is_float
                &&& i < best && short ==> !same_rate
                &&& i < best && !short ==> !(same_size && other.is_float
                    == configs[best].is_float)
            },
{
    let keys = keys_of(configs, short);
    assert forall|i: int| 0 <= i < configs.len() implies {
        let other = #[trigger] configs[i];
        let same_channels = (other.channels == 1) == (configs[best].channels == 1) && (
        other.channels == 2) == (configs[best].channels == 2);
        let same_rate = same_channels && other.max_sample_rate == configs[best].max_sample_rate;
        let same_size = same_rate && other.sample_size == configs[best].sample_size;
        &&& other.channels == 2 ==> configs[best].channels == 2
        &&& other.channels == 1 ==> configs[best].channels == 1 || configs[best].channels == 2
        &&& same_channels ==> other.max_sample_rate <= configs[best].max_sample_rate
        &&& same_rate && !short ==> other.sample_size <= configs[best].sample_size
        &&& same_size && !short && other.is_float ==> configs[best].is_float
        &&& i < best && short ==> !same_rate
        &&& i < best && !short ==> !(same_size && other.is_float == configs[best].is_float)
    } by {
        assert(!keys[i].above(keys[best]));
        if i < best {
            assert(keys[best].above(keys[i]));
        }
    }
}

/// A configuration can be used exactly where something converts its samples and it has one
/// channel or two. It is used as it is.
pub proof fn law_which_configurations_can_be_used(configs: Seq<ConfigRange>, best: int)
    requires
        0 <= best < configs.len() <= usize::MAX,
    ensures
        planned(configs, best) is Ok <==> configs[best].format != SampleFormat::Unknown && (
        configs[best].channels == 1 || configs[best].channels == 2),
        planned(configs, best) matches Ok(plan) ==> {
            &&& plan.config == best
            &&& plan.sample_rate == configs[best].max_sample_rate
            &&& plan.format == configs[best].format
            &&& plan.stereo <==> configs[best].channels == 2
        },
        planned(configs, best) matches Err(error) ==> {
            &&& error == DeviceError::UnknownFormat <==> configs[best].format
                == SampleFormat::Unknown
            &&& error != DeviceError::NoConfig
        },
{
}

} // verus!
