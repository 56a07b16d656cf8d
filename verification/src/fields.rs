//! The bits and fields of the peripheral's registers that the engine uses.
//! A `_MASK` constant covers a field of several bits and comes with the
//! `_SHIFT` of its lowest bit; the others are single bits.

use vstd::prelude::*;

verus! {

// Global AHB configuration.
pub const GAHBCFG_GINTMSK: u32 = 0x0000_0001;

// Global USB configuration.
pub const GUSBCFG_PHYSEL: u32 = 0x0000_0040;
pub const GUSBCFG_TRDT_MASK: u32 = 0x0000_3C00;
pub const GUSBCFG_TRDT_SHIFT: u32 = 10;
pub const GUSBCFG_FHMOD: u32 = 0x2000_0000;
pub const GUSBCFG_FDMOD: u32 = 0x4000_0000;

// Global reset control.
pub const GRSTCTL_CSRST: u32 = 0x0000_0001;
pub const GRSTCTL_RXFFLSH: u32 = 0x0000_0010;
pub const GRSTCTL_TXFFLSH: u32 = 0x0000_0020;
pub const GRSTCTL_TXFNUM_MASK: u32 = 0x0000_07C0;
pub const GRSTCTL_TXFNUM_SHIFT: u32 = 6;
pub const GRSTCTL_AHBIDL: u32 = 0x8000_0000;

// Global interrupt status and mask; a source has the same bit in both.
pub const GINT_CMOD: u32 = 0x0000_0001;
pub const GINT_MMIS: u32 = 0x0000_0002;
pub const GINT_OTGINT: u32 = 0x0000_0004;
pub const GINT_SOF: u32 = 0x0000_0008;
pub const GINT_RXFLVL: u32 = 0x0000_0010;
pub const GINT_USBSUSP: u32 = 0x0000_0800;
pub const GINT_USBRST: u32 = 0x0000_1000;
pub const GINT_ENUMDNE: u32 = 0x0000_2000;
pub const GINT_IEPINT: u32 = 0x0004_0000;
pub const GINT_OEPINT: u32 = 0x0008_0000;
pub const GINT_IISOIXFR: u32 = 0x0010_0000;
pub const GINT_INCOMPISOOUT: u32 = 0x0020_0000;
pub const GINT_LPMINT: u32 = 0x0800_0000;
pub const GINT_SRQINT: u32 = 0x4000_0000;
pub const GINT_WKUPINT: u32 = 0x8000_0000;

/// The sources that device initialization unmasks: receive FIFO level,
/// suspend, bus reset, enumeration done, IN and OUT endpoints, incomplete
/// isochronous transfers and wakeup.
pub const GINT_BASELINE: u32 = 0x803C_3810;

/// Every flag of the global interrupt status that a write can clear.
pub const GINT_ALL_FLAGS: u32 = 0xBFFF_FFFF;

// Receive status, as popped.
pub const GRXSTSP_EPNUM_MASK: u32 = 0x0000_000F;
pub const GRXSTSP_EPNUM_SHIFT: u32 = 0;
pub const GRXSTSP_BCNT_MASK: u32 = 0x0000_7FF0;
pub const GRXSTSP_BCNT_SHIFT: u32 = 4;
pub const GRXSTSP_PKTSTS_MASK: u32 = 0x001E_0000;
pub const GRXSTSP_PKTSTS_SHIFT: u32 = 17;

// Transmit FIFO size registers: start address below, depth above.
pub const DIEPTXF_START_MASK: u32 = 0x0000_FFFF;
pub const DIEPTXF_START_SHIFT: u32 = 0;
pub const DIEPTXF_DEPTH_MASK: u32 = 0xFFFF_0000;
pub const DIEPTXF_DEPTH_SHIFT: u32 = 16;

// General core configuration.
pub const GCCFG_PWRDWN: u32 = 0x0001_0000;
pub const GCCFG_VBDEN: u32 = 0x0020_0000;

// OTG control.
pub const GOTGCTL_BVALOEN: u32 = 0x0000_0040;
pub const GOTGCTL_BVALOVAL: u32 = 0x0000_0080;

// Device configuration.
pub const DCFG_DSPD_MASK: u32 = 0x0000_0003;
pub const DCFG_DSPD_SHIFT: u32 = 0;
pub const DCFG_DAD_MASK: u32 = 0x0000_07F0;
pub const DCFG_DAD_SHIFT: u32 = 4;
pub const DCFG_PFIVL_MASK: u32 = 0x0000_1800;
pub const DCFG_PFIVL_SHIFT: u32 = 11;

// Device control.
pub const DCTL_RWUSIG: u32 = 0x0000_0001;
pub const DCTL_SDIS: u32 = 0x0000_0002;
pub const DCTL_CGINAK: u32 = 0x0000_0100;

// Device status.
pub const DSTS_SUSPSTS: u32 = 0x0000_0001;
pub const DSTS_ENUMSPD_MASK: u32 = 0x0000_0006;
pub const DSTS_ENUMSPD_SHIFT: u32 = 1;

// IN endpoint interrupt flags and their common mask.
pub const DIEPINT_XFRC: u32 = 0x0000_0001;
pub const DIEPINT_EPDISD: u32 = 0x0000_0002;
pub const DIEPINT_TOC: u32 = 0x0000_0008;
pub const DIEPINT_ITTXFE: u32 = 0x0000_0010;
pub const DIEPINT_INEPNE: u32 = 0x0000_0040;
pub const DIEPINT_TXFE: u32 = 0x0000_0080;

// OUT endpoint interrupt flags and their common mask.
pub const DOEPINT_XFRC: u32 = 0x0000_0001;
pub const DOEPINT_STUP: u32 = 0x0000_0008;
pub const DOEPINT_OTEPDIS: u32 = 0x0000_0010;
pub const DOEPINT_STSPHSRX: u32 = 0x0000_0020;
pub const DOEPINT_NAK: u32 = 0x0000_2000;

/// Every flag of an endpoint interrupt register.
pub const EPINT_ALL_FLAGS: u32 = 0x0000_FB7F;

// All-endpoint interrupt mask: IN endpoints below, OUT endpoints above.
pub const DAINTMSK_IEPM_MASK: u32 = 0x0000_FFFF;
pub const DAINTMSK_OEPM_MASK: u32 = 0xFFFF_0000;
pub const DAINTMSK_OEPM_SHIFT: u32 = 16;

// FIFO-empty interrupt mask of the IN endpoints.
pub const DIEPEMPMSK_MASK: u32 = 0x0000_FFFF;

// Endpoint control, IN and OUT alike.
pub const EPCTL_MPSIZ_MASK: u32 = 0x0000_07FF;
pub const EPCTL_MPSIZ0_MASK: u32 = 0x0000_0003;
pub const EPCTL_USBAEP: u32 = 0x0000_8000;
pub const EPCTL_EPTYP_MASK: u32 = 0x000C_0000;
pub const EPCTL_EPTYP_SHIFT: u32 = 18;
pub const EPCTL_STALL: u32 = 0x0020_0000;
pub const EPCTL_TXFNUM_MASK: u32 = 0x03C0_0000;
pub const EPCTL_TXFNUM_SHIFT: u32 = 22;
pub const EPCTL_CNAK: u32 = 0x0400_0000;
pub const EPCTL_SNAK: u32 = 0x0800_0000;
pub const EPCTL_SD0PID: u32 = 0x1000_0000;
pub const EPCTL_EPDIS: u32 = 0x4000_0000;
pub const EPCTL_EPENA: u32 = 0x8000_0000;

// Transfer size of endpoint 0.
pub const EP0TSIZ_XFRSIZ_MASK: u32 = 0x0000_007F;
pub const EP0TSIZ_XFRSIZ_SHIFT: u32 = 0;
pub const DIEPTSIZ0_PKTCNT_MASK: u32 = 0x0018_0000;
pub const DOEPTSIZ0_PKTCNT_MASK: u32 = 0x0008_0000;
pub const EP0TSIZ_PKTCNT_SHIFT: u32 = 19;
pub const DOEPTSIZ0_STUPCNT_MASK: u32 = 0x6000_0000;
pub const DOEPTSIZ0_STUPCNT_SHIFT: u32 = 29;

// Power and clock gating.
pub const PCGCCTL_STPPCLK: u32 = 0x0000_0001;
pub const PCGCCTL_GATEHCLK: u32 = 0x0000_0002;

} // verus!
