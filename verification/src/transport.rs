//! The transports a connection can run over.

use vstd::prelude::*;
use vstd::string::StrSliceExecFns;
use crate::extract::{ends_with_ci, lower, to_lower};

verus! {

/// Kind of transport.
#[derive(Debug, Clone, Copy, PartialEq, Eq, Structural)]
pub enum TransportType {
    Tcp,
    /// Delivery is not guaranteed: for diagnostics only.
    Udp,
    Quic,
    Kcp,
}

impl Default for TransportType {
    fn default() -> (t: Self)
        ensures
            t == TransportType::Tcp,
    {
        TransportType::Tcp
    }
}

/// Whether `name` is `word` when ASCII capitals in `name` count as small
/// letters.
pub open spec fn equals_ci(name: Seq<char>, word: Seq<char>) -> bool {
    name.len() == word.len() && ends_with_ci(name, word)
}

/// The transport a word names, if any.
pub open spec fn transport_of(name: Seq<char>) -> Option<TransportType> {
    if equals_ci(name, "tcp"@) {
        Some(TransportType::Tcp)
    } else if equals_ci(name, "udp"@) {
        Some(TransportType::Udp)
    } else if equals_ci(name, "quic"@) {
        Some(TransportType::Quic)
    } else if equals_ci(name, "kcp"@) {
        Some(TransportType::Kcp)
    } else {
        None
    }
}

fn is_word(name: &str, word: &str) -> (r: bool)
    ensures
        r == equals_ci(name@, word@),
{
    let n = name.unicode_len();
    let m = word.unicode_len();
    if n != m {
        return false;
    }
    let mut i: usize = 0;
    while i < m
        invariant
            i <= m,
            n == m,
            n == name@.len(),
            m == word@.len(),
            forall|j: int| 0 <= j < i ==> lower(#[trigger] name@[j]) == word@[j],
        decreases m - i,
    {
        let a = to_lower(name.get_char(i));
        let b = word.get_char(i);
        if a != b {
            assert(lower(name@[name@.len() - word@.len() + i]) != word@[i as int]);
            return false;
        }
        i += 1;
    }
    assert forall|j: int| 0 <= j < word@.len() implies lower(
        #[trigger] name@[name@.len() - word@.len() + j],
    ) == word@[j] by {
        assert(name@[name@.len() - word@.len() + j] == name@[j]);
    }
    true
}

impl TransportType {
    pub open spec fn name_text(self) -> Seq<char> {
        match self {
            TransportType::Tcp => "TCP"@,
            TransportType::Udp => "UDP"@,
            TransportType::Quic => "QUIC"@,
            TransportType::Kcp => "KCP"@,
        }
    }

    /// Short name of the transport.
    pub fn name(&self) -> (r: &'static str)
        ensures
            r@ == self.name_text(),
    {
        match self {
            TransportType::Tcp => "TCP",
            TransportType::Udp => "UDP",
            TransportType::Quic => "QUIC",
            TransportType::Kcp => "KCP",
        }
    }

    pub open spec fn description_text(self) -> Seq<char> {
        match self {
            TransportType::Tcp => "Надёжный, стандартный протокол"@,
            TransportType::Udp => "⚠️ Без гарантий доставки! Только для тестов"@,
            TransportType::Quic => "Быстрый, с шифрованием (UDP)"@,
            TransportType::Kcp => "Сверхбыстрый, низкая задержка (UDP)"@,
        }
    }

    /// One line on what the transport offers. The line for raw UDP warns
    /// that delivery is not guaranteed.
    pub fn description(&self) -> (r: &'static str)
        ensures
            r@ == self.description_text(),
    {
        match self {
            TransportType::Tcp => "Надёжный, стандартный протокол",
            TransportType::Udp => "⚠️ Без гарантий доставки! Только для тестов",
            TransportType::Quic => "Быстрый, с шифрованием (UDP)",
            TransportType::Kcp => "Сверхбыстрый, низкая задержка (UDP)",
        }
    }

    /// Whether the transport delivers every byte in order.
    pub fn is_reliable(&self) -> (r: bool)
        ensures
            r == (*self != TransportType::Udp),
    {
        match self {
            TransportType::Udp => false,
            _ => true,
        }
    }

    /// All transports, the default first.
    pub fn all() -> (r: Vec<TransportType>)
        ensures
            r@ == seq![
                TransportType::Tcp,
                TransportType::Udp,
                TransportType::Quic,
                TransportType::Kcp,
            ],
    {
        let mut v: Vec<TransportType> = Vec::new();
        v.push(TransportType::Tcp);
        v.push(TransportType::Udp);
        v.push(TransportType::Quic);
        v.push(TransportType::Kcp);
        assert(v@ =~= seq![
            TransportType::Tcp,
            TransportType::Udp,
            TransportType::Quic,
            TransportType::Kcp,
        ]);
        v
    }

    /// Reads the name of a transport, ignoring ASCII case.
    pub fn from_str(s: &str) -> (r: Option<Self>)
        ensures
            r == transport_of(s@),
    {
        let name = s;
        if is_word(name, "tcp") {
            Some(TransportType::Tcp)
        } else if is_word(name, "udp") {
            Some(TransportType::Udp)
        } else if is_word(name, "quic") {
            Some(TransportType::Quic)
        } else if is_word(name, "kcp") {
            Some(TransportType::Kcp)
        } else {
            None
        }
    }
}

} // verus!
