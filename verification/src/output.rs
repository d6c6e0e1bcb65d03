//! Output plugin bindings: the plugin interface and the proxy that adapts it
//! to the host's entry points.

use crate::text::{decode_text, text_of};
use crate::{instance_from_ctx, Error, Handle};
use core::marker::PhantomData;
use vstd::prelude::*;

pub use crate::config::Config;

verus! {

/// What the bridge reports to the host at the end of a call.
#[derive(Clone, Copy, Debug, PartialEq, Eq, Hash, Structural)]
pub enum ResultCode {
    /// The call did its work.
    Success,
    /// The call failed for good.
    Error,
    /// The call failed; the host should try again later.
    Retry,
}

/// The result code that stands for the outcome of a plugin callback.
pub open spec fn spec_result_code(outcome: Result<(), Error>) -> ResultCode {
    match outcome {
        Ok(_) => ResultCode::Success,
        Err(Error::Error) => ResultCode::Error,
        Err(Error::Retry) => ResultCode::Retry,
    }
}

/// Maps the outcome of a plugin callback to the host's result code.
#[verifier::when_used_as_spec(spec_result_code)]
pub fn result_code(outcome: Result<(), Error>) -> (code: ResultCode)
    ensures
        code == spec_result_code(outcome),
        code == ResultCode::Success <==> outcome is Ok,
        code == ResultCode::Error <==> outcome == Err::<(), Error>(Error::Error),
        code == ResultCode::Retry <==> outcome == Err::<(), Error>(Error::Retry),
{
    match outcome {
        Ok(_) => ResultCode::Success,
        Err(Error::Error) => ResultCode::Error,
        Err(Error::Retry) => ResultCode::Retry,
    }
}

/// The kinds of plugin that a registration record can announce.
#[derive(Clone, Copy, Debug, PartialEq, Eq, Structural)]
pub enum PluginKind {
    /// Nothing announced yet.
    Unset,
    /// A plugin that receives events from the host.
    Output,
}

/// The styles in which the host can be asked to drive a plugin.
#[derive(Clone, Copy, Debug, PartialEq, Eq, Structural)]
pub enum ProxyKind {
    /// Nothing announced yet.
    Unset,
    /// The style of the host's Go plugins, which this bridge speaks.
    Golang,
}

/// The record that the host hands out at registration for the plugin to fill.
#[derive(Clone, Copy, Debug)]
pub struct ProxyDef {
    pub kind: PluginKind,
    pub proxy: ProxyKind,
    pub flags: i32,
    pub name: &'static str,
    pub description: &'static str,
}

impl ProxyDef {
    /// A record in which nothing has been announced.
    pub fn new() -> (def: Self)
        ensures
            def.kind == PluginKind::Unset,
            def.proxy == ProxyKind::Unset,
            def.flags == 0,
            def.name@.len() == 0,
            def.description@.len() == 0,
    {
        proof {
            reveal_strlit("");
        }
        ProxyDef {
            kind: PluginKind::Unset,
            proxy: ProxyKind::Unset,
            flags: 0,
            name: "",
            description: "",
        }
    }
}

/// The record that the host keeps for one plugin instance: the configuration
/// it reports for the instance, and the handle under which it keeps it.
pub struct PluginRecord<P> {
    pub config: Config,
    pub context: Handle<P>,
}

/// A trait for output plugins.
///
/// The three spec functions say what an implementation's callbacks do. They
/// admit everything unless an implementation says otherwise, so nothing is
/// taken on trust from an implementation that leaves them alone.
pub trait Plugin: Sized {
    /// The plugin name.
    const NAME: &'static str;

    /// The plugin description.
    const DESCRIPTION: &'static str;

    /// Whether `new` may answer the configuration `config` with `instance`.
    open spec fn built(config: Map<Seq<char>, Seq<u8>>, instance: Self) -> bool {
        true
    }

    /// Whether `flush`, on the instance `before` with `tag` and `data`, may
    /// leave the instance as `after` and report `outcome`.
    open spec fn flushed(
        before: Self,
        tag: Seq<char>,
        data: Seq<u8>,
        after: Self,
        outcome: Result<(), Error>,
    ) -> bool {
        true
    }

    /// Whether `exit`, on `instance`, may report `outcome`.
    open spec fn exited(instance: Self, outcome: Result<(), Error>) -> bool {
        true
    }

    /// Creates a new plugin instance.
    ///
    /// There is no way to fail: an implementation copes with a configuration
    /// that it cannot use, by falling back on defaults for one.
    fn new(config: &Config) -> (instance: Self)
        ensures
            Self::built(config@, instance),
    ;

    /// Handles data passed from the host.
    ///
    /// `data` is a MessagePack byte buffer.
    fn flush(&mut self, tag: &str, data: &[u8]) -> (outcome: Result<(), Error>)
        ensures
            Self::flushed(*old(self), tag@, data@, *final(self), outcome),
    ;

    /// Cleans up the plugin instance.
    fn exit(self) -> (outcome: Result<(), Error>)
        ensures
            Self::exited(self, outcome),
    ;
}

/// Whether `code` stands for an outcome with which the plugin's `flush`, on
/// the instance `before` with `tag` and `data`, may leave the instance as
/// `after`.
pub open spec fn flush_reports<P: Plugin>(
    before: P,
    tag: Seq<char>,
    data: Seq<u8>,
    after: P,
    code: ResultCode,
) -> bool {
    exists|outcome: Result<(), Error>|
        #![trigger P::flushed(before, tag, data, after, outcome)]
        P::flushed(before, tag, data, after, outcome) && code == spec_result_code(outcome)
}

/// Whether `code` stands for an outcome that the plugin's `exit` may report
/// on `instance`.
pub open spec fn exit_reports<P: Plugin>(instance: P, code: ResultCode) -> bool {
    exists|outcome: Result<(), Error>|
        #![trigger P::exited(instance, outcome)]
        P::exited(instance, outcome) && code == spec_result_code(outcome)
}

/// What one call of [`Proxy::flush`] does to a handle and reports.
///
/// A null handle is a hard failure. So is a tag that is not text; the
/// instance is then left as it was. Otherwise the plugin's `flush` has run
/// once on the instance, with the tag as text and the payload as given; the
/// handle holds the instance as that call left it, and the code stands for
/// that call's outcome.
pub open spec fn flush_step<P: Plugin>(
    before: Option<P>,
    data: Seq<u8>,
    tag: Seq<u8>,
    after: Option<P>,
    code: ResultCode,
) -> bool {
    match before {
        None => after is None && code == ResultCode::Error,
        Some(instance) => match text_of(tag) {
            None => after == before && code == ResultCode::Error,
            Some(tag) => after is Some && flush_reports(instance, tag, data, after->0, code),
        },
    }
}

/// What one call of [`Proxy::exit`] does to a handle and reports.
///
/// A null handle is a hard failure. Otherwise the plugin's `exit` has run
/// once on the instance, and the code stands for its outcome. Either way the
/// handle is null afterwards.
pub open spec fn exit_step<P: Plugin>(before: Option<P>, after: Option<P>, code: ResultCode) -> bool {
    &&& after is None
    &&& match before {
        None => code == ResultCode::Error,
        Some(instance) => exit_reports(instance, code),
    }
}

/// A proxy object for [`Plugin`].
pub struct Proxy<P> {
    plugin: PhantomData<P>,
}

impl<P: Plugin> Proxy<P> {
    /// The proxy for the plugin type `P`. It holds no state of its own: what
    /// lives between two calls lives behind the host's handle.
    pub fn new() -> (proxy: Self) {
        Proxy { plugin: PhantomData }
    }

    /// Fills the host's registration record: an output plugin, driven in the
    /// Go style, without flags, under the plugin's name and description.
    /// Returns 0, the host's word for a registration that went well.
    pub fn register(&self, def: &mut ProxyDef) -> (status: i32)
        ensures
            status == 0,
            final(def).kind == PluginKind::Output,
            final(def).proxy == ProxyKind::Golang,
            final(def).flags == 0,
            final(def).name@ == P::NAME@,
            final(def).description@ == P::DESCRIPTION@,
    {
        def.kind = PluginKind::Output;
        def.proxy = ProxyKind::Golang;
        def.flags = 0;
        def.name = P::NAME;
        def.description = P::DESCRIPTION;
        0
    }

    /// Leaves the record alone and returns 0: what an instance holds is
    /// released when it exits.
    pub fn unregister(&self, def: &mut ProxyDef) -> (status: i32)
        ensures
            status == 0,
            *final(def) == *old(def),
    {
        0
    }

    /// Makes the plugin instance from the record's configuration and puts it
    /// behind the record's handle. Always reports success.
    pub fn init(&self, plugin: &mut PluginRecord<P>) -> (code: ResultCode)
        ensures
            code == ResultCode::Success,
            final(plugin).config@ == old(plugin).config@,
            final(plugin).context@ matches Some(instance) && P::built(
                old(plugin).config@,
                instance,
            ),
    {
        let instance = P::new(&plugin.config);
        plugin.context.restore(Box::new(instance));
        ResultCode::Success
    }

    /// Delivers one event to the instance behind `ctx`.
    ///
    /// The host must not run two calls on one handle at the same time; the
    /// exclusive borrow of the handle says so.
    pub fn flush(&self, ctx: &mut Handle<P>, data: &[u8], tag: &[u8]) -> (code: ResultCode)
        ensures
            flush_step::<P>(old(ctx)@, data@, tag@, final(ctx)@, code),
            old(ctx)@ is None ==> code == ResultCode::Error,
            old(ctx)@ is Some <==> final(ctx)@ is Some,
    {
        let mut instance = match instance_from_ctx(ctx) {
            Some(instance) => instance,
            None => return ResultCode::Error,
        };
        let ghost before = *instance;
        let ret = match decode_text(tag) {
            Some(tag) => instance.flush(tag, data),
            None => Err(Error::Error),
        };
        proof {
            if text_of(tag@) is Some {
                assert(P::flushed(before, text_of(tag@)->0, data@, *instance, ret));
            }
        }
        ctx.restore(instance);
        result_code(ret)
    }

    /// Ends the instance behind `ctx`; whatever it reports, the instance is
    /// gone afterwards and the handle is null.
    pub fn exit(&self, ctx: &mut Handle<P>) -> (code: ResultCode)
        ensures
            exit_step::<P>(old(ctx)@, final(ctx)@, code),
            old(ctx)@ is None ==> code == ResultCode::Error,
            final(ctx)@ is None,
    {
        let instance = match instance_from_ctx(ctx) {
            Some(instance) => instance,
            None => return ResultCode::Error,
        };
        let ghost before = *instance;
        let ret = (*instance).exit();
        assert(P::exited(before, ret));
        result_code(ret)
    }
}

} // verus!

