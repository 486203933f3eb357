//! The receivers that are known to be built around the RTL2832U.

use vstd::prelude::*;

verus! {

/// A kind of receiver: the vendor and product numbers under which it shows
/// on the bus, and what it is sold as.
#[derive(Clone, Copy, Debug, PartialEq, Eq)]
pub struct KnownDevice {
    pub vendor_id: u16,
    pub product_id: u16,
    pub name: &'static str,
}

/// The number of known kinds of receiver.
pub const KNOWN_DEVICE_COUNT: usize = 42;

/// The list of known receivers, by place.
pub open spec fn known_device_at(index: int) -> KnownDevice {
    if index == 0 {
        KnownDevice {
            vendor_id: 0x0bda,
            product_id: 0x2832,
            name: "Generic RTL2832U",
        }
    } else if index == 1 {
        KnownDevice {
            vendor_id: 0x0bda,
            product_id: 0x2838,
            name: "Generic RTL2832U OEM",
        }
    } else if index == 2 {
        KnownDevice {
            vendor_id: 0x0413,
            product_id: 0x6680,
            name: "DigitalNow Quad DVB-T PCI-E card",
        }
    } else if index == 3 {
        KnownDevice {
            vendor_id: 0x0413,
            product_id: 0x6f0f,
            name: "Leadtek WinFast DTV Dongle mini D",
        }
    } else if index == 4 {
        KnownDevice {
            vendor_id: 0x0458,
            product_id: 0x707f,
            name: "Genius TVGo DVB-T03 USB dongle (Ver. B)",
        }
    } else if index == 5 {
        KnownDevice {
            vendor_id: 0x0ccd,
            product_id: 0x00a9,
            name: "Terratec Cinergy T Stick Black (rev 1)",
        }
    } else if index == 6 {
        KnownDevice {
            vendor_id: 0x0ccd,
            product_id: 0x00b3,
            name: "Terratec NOXON DAB/DAB+ USB dongle (rev 1)",
        }
    } else if index == 7 {
        KnownDevice {
            vendor_id: 0x0ccd,
            product_id: 0x00b4,
            name: "Terratec Deutschlandradio DAB Stick",
        }
    } else if index == 8 {
        KnownDevice {
            vendor_id: 0x0ccd,
            product_id: 0x00b5,
            name: "Terratec NOXON DAB Stick - Radio Energy",
        }
    } else if index == 9 {
        KnownDevice {
            vendor_id: 0x0ccd,
            product_id: 0x00b7,
            name: "Terratec Media Broadcast DAB Stick",
        }
    } else if index == 10 {
        KnownDevice {
            vendor_id: 0x0ccd,
            product_id: 0x00b8,
            name: "Terratec BR DAB Stick",
        }
    } else if index == 11 {
        KnownDevice {
            vendor_id: 0x0ccd,
            product_id: 0x00b9,
            name: "Terratec WDR DAB Stick",
        }
    } else if index == 12 {
        KnownDevice {
            vendor_id: 0x0ccd,
            product_id: 0x00c0,
            name: "Terratec MuellerVerlag DAB Stick",
        }
    } else if index == 13 {
        KnownDevice {
            vendor_id: 0x0ccd,
            product_id: 0x00c6,
            name: "Terratec Fraunhofer DAB Stick",
        }
    } else if index == 14 {
        KnownDevice {
            vendor_id: 0x0ccd,
            product_id: 0x00d3,
            name: "Terratec Cinergy T Stick RC (Rev.3)",
        }
    } else if index == 15 {
        KnownDevice {
            vendor_id: 0x0ccd,
            product_id: 0x00d7,
            name: "Terratec T Stick PLUS",
        }
    } else if index == 16 {
        KnownDevice {
            vendor_id: 0x0ccd,
            product_id: 0x00e0,
            name: "Terratec NOXON DAB/DAB+ USB dongle (rev 2)",
        }
    } else if index == 17 {
        KnownDevice {
            vendor_id: 0x1554,
            product_id: 0x5020,
            name: "PixelView PV-DT235U(RN)",
        }
    } else if index == 18 {
        KnownDevice {
            vendor_id: 0x15f4,
            product_id: 0x0131,
            name: "Astrometa DVB-T/DVB-T2",
        }
    } else if index == 19 {
        KnownDevice {
            vendor_id: 0x15f4,
            product_id: 0x0133,
            name: "HanfTek DAB+FM+DVB-T",
        }
    } else if index == 20 {
        KnownDevice {
            vendor_id: 0x185b,
            product_id: 0x0620,
            name: "Compro Videomate U620F",
        }
    } else if index == 21 {
        KnownDevice {
            vendor_id: 0x185b,
            product_id: 0x0650,
            name: "Compro Videomate U650F",
        }
    } else if index == 22 {
        KnownDevice {
            vendor_id: 0x185b,
            product_id: 0x0680,
            name: "Compro Videomate U680F",
        }
    } else if index == 23 {
        KnownDevice {
            vendor_id: 0x1b80,
            product_id: 0xd393,
            name: "GIGABYTE GT-U7300",
        }
    } else if index == 24 {
        KnownDevice {
            vendor_id: 0x1b80,
            product_id: 0xd394,
            name: "DIKOM USB-DVBT HD",
        }
    } else if index == 25 {
        KnownDevice {
            vendor_id: 0x1b80,
            product_id: 0xd395,
            name: "Peak 102569AGPK",
        }
    } else if index == 26 {
        KnownDevice {
            vendor_id: 0x1b80,
            product_id: 0xd397,
            name: "KWorld KW-UB450-T USB DVB-T Pico TV",
        }
    } else if index == 27 {
        KnownDevice {
            vendor_id: 0x1b80,
            product_id: 0xd398,
            name: "Zaapa ZT-MINDVBZP",
        }
    } else if index == 28 {
        KnownDevice {
            vendor_id: 0x1b80,
            product_id: 0xd39d,
            name: "SVEON STV20 DVB-T USB & FM",
        }
    } else if index == 29 {
        KnownDevice {
            vendor_id: 0x1b80,
            product_id: 0xd3a4,
            name: "Twintech UT-40",
        }
    } else if index == 30 {
        KnownDevice {
            vendor_id: 0x1b80,
            product_id: 0xd3a8,
            name: "ASUS U3100MINI_PLUS_V2",
        }
    } else if index == 31 {
        KnownDevice {
            vendor_id: 0x1b80,
            product_id: 0xd3af,
            name: "SVEON STV27 DVB-T USB & FM",
        }
    } else if index == 32 {
        KnownDevice {
            vendor_id: 0x1b80,
            product_id: 0xd3b0,
            name: "SVEON STV21 DVB-T USB & FM",
        }
    } else if index == 33 {
        KnownDevice {
            vendor_id: 0x1d19,
            product_id: 0x1101,
            name: "Dexatek DK DVB-T Dongle (Logilink VG0002A)",
        }
    } else if index == 34 {
        KnownDevice {
            vendor_id: 0x1d19,
            product_id: 0x1102,
            name: "Dexatek DK DVB-T Dongle (MSI DigiVox mini II V3.0)",
        }
    } else if index == 35 {
        KnownDevice {
            vendor_id: 0x1d19,
            product_id: 0x1103,
            name: "Dexatek Technology Ltd. DK 5217 DVB-T Dongle",
        }
    } else if index == 36 {
        KnownDevice {
            vendor_id: 0x1d19,
            product_id: 0x1104,
            name: "MSI DigiVox Micro HD",
        }
    } else if index == 37 {
        KnownDevice {
            vendor_id: 0x1f4d,
            product_id: 0xa803,
            name: "Sweex DVB-T USB",
        }
    } else if index == 38 {
        KnownDevice {
            vendor_id: 0x1f4d,
            product_id: 0xb803,
            name: "GTek T803",
        }
    } else if index == 39 {
        KnownDevice {
            vendor_id: 0x1f4d,
            product_id: 0xc803,
            name: "Lifeview LV5TDeluxe",
        }
    } else if index == 40 {
        KnownDevice {
            vendor_id: 0x1f4d,
            product_id: 0xd286,
            name: "MyGica TD312",
        }
    } else {
        KnownDevice {
            vendor_id: 0x1f4d,
            product_id: 0xd803,
            name: "PROlectrix DV107669",
        }
    }
}

/// The place from `from` on of the first known receiver with these
/// numbers, or the length of the list if there is none.
pub open spec fn first_known_from(vendor_id: u16, product_id: u16, from: int) -> int
    decreases KNOWN_DEVICE_COUNT - from,
{
    if from >= KNOWN_DEVICE_COUNT {
        KNOWN_DEVICE_COUNT as int
    } else if known_device_at(from).vendor_id == vendor_id && known_device_at(from).product_id
        == product_id {
        from
    } else {
        first_known_from(vendor_id, product_id, from + 1)
    }
}

/// The known receiver with these numbers, if there is one.
pub open spec fn known(vendor_id: u16, product_id: u16) -> Option<KnownDevice> {
    let at = first_known_from(vendor_id, product_id, 0);
    if at < KNOWN_DEVICE_COUNT {
        Some(known_device_at(at))
    } else {
        None
    }
}

/// No two entries of the list have the same numbers, so a receiver is
/// found by its numbers whatever the order of the search.
pub proof fn lemma_numbers_are_distinct(i: int, j: int)
    requires
        0 <= i < j < KNOWN_DEVICE_COUNT,
    ensures
        known_device_at(i).vendor_id != known_device_at(j).vendor_id || known_device_at(
            i,
        ).product_id != known_device_at(j).product_id,
{
}

/// Every entry of the list is what a search for its numbers finds: the
/// list answers as a map from the pair of numbers to the entry does.
pub proof fn lemma_every_entry_is_found(index: int)
    requires
        0 <= index < KNOWN_DEVICE_COUNT,
    ensures
        known(known_device_at(index).vendor_id, known_device_at(index).product_id) == Some(
            known_device_at(index),
        ),
{
    lemma_first_known(index, 0);
}

proof fn lemma_first_known(index: int, from: int)
    requires
        0 <= from <= index < KNOWN_DEVICE_COUNT,
    ensures
        first_known_from(
            known_device_at(index).vendor_id,
            known_device_at(index).product_id,
            from,
        ) == index,
    decreases index - from,
{
    if from < index {
        lemma_numbers_are_distinct(from, index);
        lemma_first_known(index, from + 1);
    }
}

/// The entry of the list at `index`.
pub fn known_device(index: usize) -> (r: KnownDevice)
    requires
        index < KNOWN_DEVICE_COUNT,
    ensures
        r == known_device_at(index as int),
{
    match index {
        0 => KnownDevice {
            vendor_id: 0x0bda,
            product_id: 0x2832,
            name: "Generic RTL2832U",
        },
        1 => KnownDevice {
            vendor_id: 0x0bda,
            product_id: 0x2838,
            name: "Generic RTL2832U OEM",
        },
        2 => KnownDevice {
            vendor_id: 0x0413,
            product_id: 0x6680,
            name: "DigitalNow Quad DVB-T PCI-E card",
        },
        3 => KnownDevice {
            vendor_id: 0x0413,
            product_id: 0x6f0f,
            name: "Leadtek WinFast DTV Dongle mini D",
        },
        4 => KnownDevice {
            vendor_id: 0x0458,
            product_id: 0x707f,
            name: "Genius TVGo DVB-T03 USB dongle (Ver. B)",
        },
        5 => KnownDevice {
            vendor_id: 0x0ccd,
            product_id: 0x00a9,
            name: "Terratec Cinergy T Stick Black (rev 1)",
        },
        6 => KnownDevice {
            vendor_id: 0x0ccd,
            product_id: 0x00b3,
            name: "Terratec NOXON DAB/DAB+ USB dongle (rev 1)",
        },
        7 => KnownDevice {
            vendor_id: 0x0ccd,
            product_id: 0x00b4,
            name: "Terratec Deutschlandradio DAB Stick",
        },
        8 => KnownDevice {
            vendor_id: 0x0ccd,
            product_id: 0x00b5,
            name: "Terratec NOXON DAB Stick - Radio Energy",
        },
        9 => KnownDevice {
            vendor_id: 0x0ccd,
            product_id: 0x00b7,
            name: "Terratec Media Broadcast DAB Stick",
        },
        10 => KnownDevice {
            vendor_id: 0x0ccd,
            product_id: 0x00b8,
            name: "Terratec BR DAB Stick",
        },
        11 => KnownDevice {
            vendor_id: 0x0ccd,
            product_id: 0x00b9,
            name: "Terratec WDR DAB Stick",
        },
        12 => KnownDevice {
            vendor_id: 0x0ccd,
            product_id: 0x00c0,
            name: "Terratec MuellerVerlag DAB Stick",
        },
        13 => KnownDevice {
            vendor_id: 0x0ccd,
            product_id: 0x00c6,
            name: "Terratec Fraunhofer DAB Stick",
        },
        14 => KnownDevice {
            vendor_id: 0x0ccd,
            product_id: 0x00d3,
            name: "Terratec Cinergy T Stick RC (Rev.3)",
        },
        15 => KnownDevice {
            vendor_id: 0x0ccd,
            product_id: 0x00d7,
            name: "Terratec T Stick PLUS",
        },
        16 => KnownDevice {
            vendor_id: 0x0ccd,
            product_id: 0x00e0,
            name: "Terratec NOXON DAB/DAB+ USB dongle (rev 2)",
        },
        17 => KnownDevice {
            vendor_id: 0x1554,
            product_id: 0x5020,
            name: "PixelView PV-DT235U(RN)",
        },
        18 => KnownDevice {
            vendor_id: 0x15f4,
            product_id: 0x0131,
            name: "Astrometa DVB-T/DVB-T2",
        },
        19 => KnownDevice {
            vendor_id: 0x15f4,
            product_id: 0x0133,
            name: "HanfTek DAB+FM+DVB-T",
        },
        20 => KnownDevice {
            vendor_id: 0x185b,
            product_id: 0x0620,
            name: "Compro Videomate U620F",
        },
        21 => KnownDevice {
            vendor_id: 0x185b,
            product_id: 0x0650,
            name: "Compro Videomate U650F",
        },
        22 => KnownDevice {
            vendor_id: 0x185b,
            product_id: 0x0680,
            name: "Compro Videomate U680F",
        },
        23 => KnownDevice {
            vendor_id: 0x1b80,
            product_id: 0xd393,
            name: "GIGABYTE GT-U7300",
        },
        24 => KnownDevice {
            vendor_id: 0x1b80,
            product_id: 0xd394,
            name: "DIKOM USB-DVBT HD",
        },
        25 => KnownDevice {
            vendor_id: 0x1b80,
            product_id: 0xd395,
            name: "Peak 102569AGPK",
        },
        26 => KnownDevice {
            vendor_id: 0x1b80,
            product_id: 0xd397,
            name: "KWorld KW-UB450-T USB DVB-T Pico TV",
        },
        27 => KnownDevice {
            vendor_id: 0x1b80,
            product_id: 0xd398,
            name: "Zaapa ZT-MINDVBZP",
        },
        28 => KnownDevice {
            vendor_id: 0x1b80,
            product_id: 0xd39d,
            name: "SVEON STV20 DVB-T USB & FM",
        },
        29 => KnownDevice {
            vendor_id: 0x1b80,
            product_id: 0xd3a4,
            name: "Twintech UT-40",
        },
        30 => KnownDevice {
            vendor_id: 0x1b80,
            product_id: 0xd3a8,
            name: "ASUS U3100MINI_PLUS_V2",
        },
        31 => KnownDevice {
            vendor_id: 0x1b80,
            product_id: 0xd3af,
            name: "SVEON STV27 DVB-T USB & FM",
        },
        32 => KnownDevice {
            vendor_id: 0x1b80,
            product_id: 0xd3b0,
            name: "SVEON STV21 DVB-T USB & FM",
        },
        33 => KnownDevice {
            vendor_id: 0x1d19,
            product_id: 0x1101,
            name: "Dexatek DK DVB-T Dongle (Logilink VG0002A)",
        },
        34 => KnownDevice {
            vendor_id: 0x1d19,
            product_id: 0x1102,
            name: "Dexatek DK DVB-T Dongle (MSI DigiVox mini II V3.0)",
        },
        35 => KnownDevice {
            vendor_id: 0x1d19,
            product_id: 0x1103,
            name: "Dexatek Technology Ltd. DK 5217 DVB-T Dongle",
        },
        36 => KnownDevice {
            vendor_id: 0x1d19,
            product_id: 0x1104,
            name: "MSI DigiVox Micro HD",
        },
        37 => KnownDevice {
            vendor_id: 0x1f4d,
            product_id: 0xa803,
            name: "Sweex DVB-T USB",
        },
        38 => KnownDevice {
            vendor_id: 0x1f4d,
            product_id: 0xb803,
            name: "GTek T803",
        },
        39 => KnownDevice {
            vendor_id: 0x1f4d,
            product_id: 0xc803,
            name: "Lifeview LV5TDeluxe",
        },
        40 => KnownDevice {
            vendor_id: 0x1f4d,
            product_id: 0xd286,
            name: "MyGica TD312",
        },
        _ => KnownDevice {
            vendor_id: 0x1f4d,
            product_id: 0xd803,
            name: "PROlectrix DV107669",
        },
    }
}

/// Looks a receiver up by its vendor and product numbers.
pub fn lookup(vendor_id: u16, product_id: u16) -> (r: Option<KnownDevice>)
    ensures
        r == known(vendor_id, product_id),
        r matches Some(device) ==> device.vendor_id == vendor_id && device.product_id
            == product_id,
{
    let mut index: usize = 0;
    while index < KNOWN_DEVICE_COUNT
        invariant
            index <= KNOWN_DEVICE_COUNT,
            first_known_from(vendor_id, product_id, 0) == first_known_from(
                vendor_id,
                product_id,
                index as int,
            ),
        decreases KNOWN_DEVICE_COUNT - index,
    {
        let device = known_device(index);
        if device.vendor_id == vendor_id && device.product_id == product_id {
            return Some(device);
        }
        index = index + 1;
    }
    None
}

} // verus!
