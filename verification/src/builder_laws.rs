//! What holds of a builder over every sequence of settings.

use crate::builder::BuilderView;
use crate::client::ClientView;
use crate::error::ErrorView;
use crate::ipv4::{is_dotted, law_notation_is_unambiguous, Ipv4Address};
use vstd::prelude::*;

verus! {

/// A call of one of a builder's setters.
pub enum Setting {
    /// The address, as it was written.
    Ip(Seq<char>),
    /// The port, or nothing if what was given does not fit one.
    Port(Option<u16>),
    /// The pause before a lost connection is sought again.
    ReconnectTimeout(usize),
    /// How long a try waits for the response.
    RetryTimeout(u64),
    /// How often a failed try is repeated.
    RetryCount(usize),
}

impl Setting {
    /// The address that the call sets, if any.
    pub open spec fn ip(self) -> Option<Seq<char>> {
        match self {
            Setting::Ip(ip) if is_dotted(ip) => Some(ip),
            _ => None,
        }
    }

    /// The port that the call sets, if any.
    pub open spec fn port(self) -> Option<u16> {
        match self {
            Setting::Port(port) => port,
            _ => None,
        }
    }

    /// The pause that the call sets, if any.
    pub open spec fn reconnect_timeout(self) -> Option<usize> {
        match self {
            Setting::ReconnectTimeout(seconds) => Some(seconds),
            _ => None,
        }
    }

    /// The wait that the call sets, if any.
    pub open spec fn retry_timeout(self) -> Option<u64> {
        match self {
            Setting::RetryTimeout(milli_seconds) => Some(milli_seconds),
            _ => None,
        }
    }

    /// The number of repetitions that the call sets, if any.
    pub open spec fn retry_count(self) -> Option<usize> {
        match self {
            Setting::RetryCount(count) => Some(count),
            _ => None,
        }
    }
}

impl BuilderView {
    /// The builder once a setter has been called.
    pub open spec fn told(self, setting: Setting) -> BuilderView {
        match setting {
            Setting::Ip(ip) => self.with_ip(ip),
            Setting::Port(port) => self.with_port(port.ok_or(())),
            Setting::ReconnectTimeout(seconds) => BuilderView {
                reconnect_timeout: Some(seconds),
                ..self
            },
            Setting::RetryTimeout(milli_seconds) => BuilderView {
                retry_timeout: Some(milli_seconds),
                ..self
            },
            Setting::RetryCount(count) => BuilderView { retry_count: Some(count), ..self },
        }
    }
}

/// The builder once setters have been called, one after the other.
pub open spec fn told_all(builder: BuilderView, settings: Seq<Setting>) -> BuilderView
    decreases settings.len(),
{
    if settings.len() == 0 {
        builder
    } else {
        told_all(builder, settings.drop_last()).told(settings.last())
    }
}

/// The last value that `settings` give, where `value` says what a call gives; `unset` if none
/// gives any.
pub open spec fn last_set<T>(
    settings: Seq<Setting>,
    value: spec_fn(Setting) -> Option<T>,
    unset: Option<T>,
) -> Option<T>
    decreases settings.len(),
{
    if settings.len() == 0 {
        unset
    } else {
        match value(settings.last()) {
            Some(value) => Some(value),
            None => last_set(settings.drop_last(), value, unset),
        }
    }
}

/// Whatever setters are called in whatever order, the last valid value of each counts, and what
/// was not set stays as it was.
pub proof fn law_last_valid_setting_counts(builder: BuilderView, settings: Seq<Setting>)
    ensures
        told_all(builder, settings) == (BuilderView {
            ip: last_set(settings, |setting: Setting| setting.ip(), builder.ip),
            port: last_set(settings, |setting: Setting| setting.port(), builder.port),
            reconnect_timeout: last_set(
                settings,
                |setting: Setting| setting.reconnect_timeout(),
                builder.reconnect_timeout,
            ),
            retry_timeout: last_set(
                settings,
                |setting: Setting| setting.retry_timeout(),
                builder.retry_timeout,
            ),
            retry_count: last_set(
                settings,
                |setting: Setting| setting.retry_count(),
                builder.retry_count,
            ),
        }),
    decreases settings.len(),
{
    if settings.len() > 0 {
        law_last_valid_setting_counts(builder, settings.drop_last());
    }
}

/// A setter that is given something that is no port, whatever the reason, is called with nothing.
pub proof fn law_port_or_nothing<E>(builder: BuilderView, port: Result<u16, E>)
    ensures
        builder.with_port(port) == builder.told(Setting::Port(port.ok())),
{
}

proof fn lemma_other_settings_do_not_matter<T>(
    settings: Seq<Setting>,
    of_setter: spec_fn(Setting) -> bool,
    value: spec_fn(Setting) -> Option<T>,
    unset: Option<T>,
)
    requires
        forall|setting: Setting| #[trigger] value(setting) is Some ==> of_setter(setting),
    ensures
        last_set(settings, value, unset) == last_set(settings.filter(of_setter), value, unset),
    decreases settings.len(),
{
    reveal(Seq::filter);
    if settings.len() > 0 {
        let before = settings.drop_last();
        lemma_other_settings_do_not_matter(before, of_setter, value, unset);
        if of_setter(settings.last()) {
            let kept = before.filter(of_setter);
            assert(kept.push(settings.last()).drop_last() =~= kept);
        }
    }
}

/// Each setter was called with the same values in the same order; the calls of different setters
/// may be interleaved in any way.
pub open spec fn same_for_each_setter(first: Seq<Setting>, second: Seq<Setting>) -> bool {
    &&& first.filter(|setting: Setting| setting is Ip) == second.filter(
        |setting: Setting| setting is Ip,
    )
    &&& first.filter(|setting: Setting| setting is Port) == second.filter(
        |setting: Setting| setting is Port,
    )
    &&& first.filter(|setting: Setting| setting is ReconnectTimeout) == second.filter(
        |setting: Setting| setting is ReconnectTimeout,
    )
    &&& first.filter(|setting: Setting| setting is RetryTimeout) == second.filter(
        |setting: Setting| setting is RetryTimeout,
    )
    &&& first.filter(|setting: Setting| setting is RetryCount) == second.filter(
        |setting: Setting| setting is RetryCount,
    )
}

/// The order in which different setters are called does not matter.
pub proof fn law_order_of_setters_does_not_matter(
    builder: BuilderView,
    first: Seq<Setting>,
    second: Seq<Setting>,
)
    requires
        same_for_each_setter(first, second),
    ensures
        told_all(builder, first) == told_all(builder, second),
{
    law_last_valid_setting_counts(builder, first);
    law_last_valid_setting_counts(builder, second);
    let is_ip = |setting: Setting| setting is Ip;
    let ip = |setting: Setting| setting.ip();
    lemma_other_settings_do_not_matter(first, is_ip, ip, builder.ip);
    lemma_other_settings_do_not_matter(second, is_ip, ip, builder.ip);
    let is_port = |setting: Setting| setting is Port;
    let port = |setting: Setting| setting.port();
    lemma_other_settings_do_not_matter(first, is_port, port, builder.port);
    lemma_other_settings_do_not_matter(second, is_port, port, builder.port);
    let is_pause = |setting: Setting| setting is ReconnectTimeout;
    let pause = |setting: Setting| setting.reconnect_timeout();
    lemma_other_settings_do_not_matter(first, is_pause, pause, builder.reconnect_timeout);
    lemma_other_settings_do_not_matter(second, is_pause, pause, builder.reconnect_timeout);
    let is_wait = |setting: Setting| setting is RetryTimeout;
    let wait = |setting: Setting| setting.retry_timeout();
    lemma_other_settings_do_not_matter(first, is_wait, wait, builder.retry_timeout);
    lemma_other_settings_do_not_matter(second, is_wait, wait, builder.retry_timeout);
    let is_count = |setting: Setting| setting is RetryCount;
    let count = |setting: Setting| setting.retry_count();
    lemma_other_settings_do_not_matter(first, is_count, count, builder.retry_count);
    lemma_other_settings_do_not_matter(second, is_count, count, builder.retry_count);
}

/// A builder never holds an address that is not in dotted decimal notation: it starts without
/// one, and no sequence of settings brings one in.
pub proof fn law_address_stays_valid(builder: BuilderView, settings: Seq<Setting>)
    ensures
        BuilderView::empty().wf(),
        builder.wf() ==> told_all(builder, settings).wf(),
    decreases settings.len(),
{
    if settings.len() > 0 {
        law_address_stays_valid(builder, settings.drop_last());
    }
}

/// A builder makes a client exactly if it has been told an address and a port.
pub proof fn law_address_and_port_suffice(
    builder: BuilderView,
    result: Result<ClientView, ErrorView>,
)
    requires
        builder.wf(),
        builder.builds(result),
    ensures
        result is Ok <==> builder.ip is Some && builder.port is Some,
{
}

/// What a builder has been told leaves nothing open about the client it makes.
pub proof fn law_client_is_determined(
    builder: BuilderView,
    first: Result<ClientView, ErrorView>,
    second: Result<ClientView, ErrorView>,
)
    requires
        builder.builds(first),
        builder.builds(second),
    ensures
        first == second,
{
    if let (Some(text), Some(port)) = (builder.ip, builder.port) {
        assert forall|ip1: Ipv4Address, ip2: Ipv4Address|
            text == #[trigger] ip1.dotted() && text == #[trigger] ip2.dotted() implies ip1
            == ip2 by {
            law_notation_is_unambiguous(ip1, ip2);
        }
    }
}

/// What the worker is told depends on each setting alone: the reconnect timeout is the one set,
/// and none if none was set; the retry settings are those set, or one repetition and a tenth of a
/// second.
pub proof fn law_each_setting_reaches_the_worker(builder: BuilderView)
    ensures
        builder.reconnect_timeout is Some <==> builder.config().reconnect_timeout is Some,
        builder.reconnect_timeout is Some ==> builder.config().reconnect_timeout->Some_0
            == builder.reconnect_timeout->Some_0,
        builder.retry_count is Some ==> builder.config().retry_count == builder.retry_count->Some_0,
        builder.retry_count is None ==> builder.config().retry_count == 1,
        builder.retry_timeout is Some ==> builder.config().retry_interval
            == builder.retry_timeout->Some_0,
        builder.retry_timeout is None ==> builder.config().retry_interval == 100,
{
}

/// Builders that agree on a setting tell the worker the same of it, however much else they differ
/// in.
pub proof fn law_settings_do_not_interfere(builder: BuilderView, other: BuilderView)
    ensures
        builder.reconnect_timeout == other.reconnect_timeout ==> builder.config().reconnect_timeout
            == other.config().reconnect_timeout,
        builder.retry_count == other.retry_count ==> builder.config().retry_count
            == other.config().retry_count,
        builder.retry_timeout == other.retry_timeout ==> builder.config().retry_interval
            == other.config().retry_interval,
{
}

/// A builder makes a client for the address and the port that it was told, with every setting,
/// and with no connection yet. What is missing is reported, the address first.
pub proof fn law_client_is_as_told(builder: BuilderView, result: Result<ClientView, ErrorView>)
    requires
        builder.wf(),
        builder.builds(result),
    ensures
        builder.ip is None ==> result == Err::<ClientView, ErrorView>(ErrorView::InvalidIpAddr),
        builder.ip is Some && builder.port is None ==> result == Err::<ClientView, ErrorView>(
            ErrorView::InvalidPort,
        ),
        builder.ip is Some && builder.port is Some ==> {
            &&& result is Ok
            &&& result->Ok_0.socket_addr.ip.dotted() == builder.ip->Some_0
            &&& result->Ok_0.socket_addr.port == builder.port->Some_0
            &&& builder.reconnect_timeout is Some <==> result->Ok_0.config.reconnect_timeout is Some
            &&& builder.reconnect_timeout is Some ==> result->Ok_0.config.reconnect_timeout->Some_0
                == builder.reconnect_timeout->Some_0
            &&& result->Ok_0.config.retry_count == match builder.retry_count {
                Some(count) => count,
                None => 1,
            }
            &&& result->Ok_0.config.retry_interval == match builder.retry_timeout {
                Some(milli_seconds) => milli_seconds,
                None => 100,
            }
            &&& result->Ok_0.state_rx is None
            &&& result->Ok_0.cmd_tx is None
            &&& result->Ok_0.worker_handle is None
            &&& result->Ok_0.shutdown_tx is None
        },
{
}

/// Each setter changes the one setting that it is about. Address and port are taken only if they
/// are valid; otherwise everything stays as it was.
pub proof fn law_setters_change_what_they_are_about<E>(
    builder: BuilderView,
    ip: Seq<char>,
    port: u16,
    error: E,
    reconnect_timeout: usize,
    retry_timeout: u64,
    retry_count: usize,
)
    ensures
        is_dotted(ip) ==> builder.with_ip(ip) == (BuilderView { ip: Some(ip), ..builder }),
        !is_dotted(ip) ==> builder.with_ip(ip) == builder,
        builder.with_port(Ok::<u16, E>(port)) == (BuilderView { port: Some(port), ..builder }),
        builder.with_port(Err::<u16, E>(error)) == builder,
        builder.told(Setting::ReconnectTimeout(reconnect_timeout)) == (BuilderView {
            reconnect_timeout: Some(reconnect_timeout),
            ..builder
        }),
        builder.told(Setting::RetryTimeout(retry_timeout)) == (BuilderView {
            retry_timeout: Some(retry_timeout),
            ..builder
        }),
        builder.told(Setting::RetryCount(retry_count)) == (BuilderView {
            retry_count: Some(retry_count),
            ..builder
        }),
{
}

/// A builder that has been told nothing has no setting at all.
pub proof fn law_new_builder_has_no_setting()
    ensures
        BuilderView::empty().ip is None,
        BuilderView::empty().port is None,
        BuilderView::empty().reconnect_timeout is None,
        BuilderView::empty().retry_timeout is None,
        BuilderView::empty().retry_count is None,
{
}

} // verus!
